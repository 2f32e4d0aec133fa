//! The sensor reading as it travels: a message of four fields in the
//! Protocol Buffers wire format.
//!
//! | field | number | wire type |
//! |---|---|---|
//! | `timestamp` | 1 | varint, 64-bit two's complement |
//! | `datum` | 2 | 64-bit, an IEEE 754 double |
//! | `domain` | 3 | varint, 32-bit two's complement |
//! | `device_id` | 4 | length-delimited bytes |
//!
//! A field that is absent keeps its default (zero, or no bytes); of a field
//! that occurs more than once the last occurrence counts; fields with other
//! numbers are skipped.

use crate::wire::{
    lemma_fixed64_round_trip, lemma_key_bounds, lemma_key_round_trip, lemma_skip_bounds,
    lemma_skip_twice, lemma_varint_bounds, lemma_varint_round_trip, read_fixed64, read_key,
    read_length_delimited, read_varint, skip_field, spec_encode_fixed64, spec_encode_key,
    spec_encode_varint, spec_fixed64, spec_key, spec_length_delimited, spec_skip, spec_varint,
    write_fixed64, write_key, write_varint, DecodeError, FieldKey, WireType, RECURSION_LIMIT,
};
use vstd::prelude::*;
use vstd::slice::{slice_subrange, slice_to_vec};

verus! {

pub const TIMESTAMP_TAG: u32 = 1;

pub const DATUM_TAG: u32 = 2;

pub const DOMAIN_TAG: u32 = 3;

pub const DEVICE_ID_TAG: u32 = 4;

/// One reading as decoded from a request body. The measured value is kept as
/// the bit pattern of its double.
#[derive(Debug, PartialEq, Eq)]
pub struct SensorData {
    /// Unix seconds, as the device gave them.
    pub timestamp: i64,
    /// The bits of the measured value, an IEEE 754 double.
    pub datum_bits: u64,
    /// The code of the measurement domain: see [`Domain`].
    pub domain: i32,
    /// The device's identifier, not yet checked to be text.
    pub device_id: Vec<u8>,
}

/// What a [`SensorData`] holds.
pub struct SensorDataModel {
    pub timestamp: i64,
    pub datum_bits: u64,
    pub domain: i32,
    pub device_id: Seq<u8>,
}

impl View for SensorData {
    type V = SensorDataModel;

    open spec fn view(&self) -> SensorDataModel {
        SensorDataModel {
            timestamp: self.timestamp,
            datum_bits: self.datum_bits,
            domain: self.domain,
            device_id: self.device_id@,
        }
    }
}

/// The reading in which every field has its default.
pub open spec fn spec_default() -> SensorDataModel {
    SensorDataModel { timestamp: 0, datum_bits: 0, domain: 0, device_id: Seq::empty() }
}

/// A varint's value read as a 64-bit two's complement number.
pub open spec fn spec_int64(value: nat) -> i64 {
    if value <= i64::MAX {
        value as i64
    } else {
        (value - 0x1_0000_0000_0000_0000) as i64
    }
}

/// The low 32 bits of a varint's value read as a two's complement number.
pub open spec fn spec_int32(value: nat) -> i32 {
    let low = value % 0x1_0000_0000;
    if low <= i32::MAX {
        low as i32
    } else {
        (low - 0x1_0000_0000) as i32
    }
}

/// The reading after the field with the given key, whose value is at the
/// head of `body`, has been merged into `reading`; and the length of that
/// value.
pub open spec fn spec_merge_field(body: Seq<u8>, key: FieldKey, reading: SensorDataModel) -> Result<
    (SensorDataModel, nat),
    DecodeError,
> {
    if key.tag == TIMESTAMP_TAG {
        if key.wire_type != WireType::Varint {
            Err(DecodeError::WireTypeMismatch)
        } else {
            match spec_varint(body, 0) {
                None => Err(DecodeError::InvalidVarint),
                Some((value, len)) => Ok(
                    (SensorDataModel { timestamp: spec_int64(value), ..reading }, len),
                ),
            }
        }
    } else if key.tag == DATUM_TAG {
        if key.wire_type != WireType::SixtyFourBit {
            Err(DecodeError::WireTypeMismatch)
        } else {
            match spec_fixed64(body) {
                Err(e) => Err(e),
                Ok((bits, len)) => Ok((SensorDataModel { datum_bits: bits, ..reading }, len)),
            }
        }
    } else if key.tag == DOMAIN_TAG {
        if key.wire_type != WireType::Varint {
            Err(DecodeError::WireTypeMismatch)
        } else {
            match spec_varint(body, 0) {
                None => Err(DecodeError::InvalidVarint),
                Some((value, len)) => Ok(
                    (SensorDataModel { domain: spec_int32(value), ..reading }, len),
                ),
            }
        }
    } else if key.tag == DEVICE_ID_TAG {
        if key.wire_type != WireType::LengthDelimited {
            Err(DecodeError::WireTypeMismatch)
        } else {
            match spec_length_delimited(body) {
                Err(e) => Err(e),
                Ok((payload, len)) => Ok((SensorDataModel { device_id: payload, ..reading }, len)),
            }
        }
    } else {
        match spec_skip(body, key, RECURSION_LIMIT as nat) {
            Err(e) => Err(e),
            Ok(len) => Ok((reading, len)),
        }
    }
}

/// A merged value lies inside the buffer.
pub proof fn lemma_merge_bounds(body: Seq<u8>, key: FieldKey, reading: SensorDataModel)
    ensures
        match spec_merge_field(body, key, reading) {
            Ok((_, len)) => len <= body.len(),
            Err(_) => true,
        },
{
    lemma_varint_bounds(body, 0);
    lemma_skip_bounds(body, key, RECURSION_LIMIT as nat);
}

/// The reading that results from merging all fields in `bytes`, one after
/// the other, into `reading`.
pub open spec fn spec_decode_fields(bytes: Seq<u8>, reading: SensorDataModel) -> Result<
    SensorDataModel,
    DecodeError,
>
    decreases bytes.len(),
{
    if bytes.len() == 0 {
        Ok(reading)
    } else {
        match spec_key(bytes) {
            Err(e) => Err(e),
            Ok((key, key_len)) => match spec_merge_field(bytes.skip(key_len as int), key, reading) {
                Err(e) => Err(e),
                Ok((merged, value_len)) => {
                    proof {
                        lemma_key_bounds(bytes);
                        lemma_merge_bounds(bytes.skip(key_len as int), key, reading);
                    }
                    spec_decode_fields(bytes.skip((key_len + value_len) as int), merged)
                },
            },
        }
    }
}

/// The reading that `bytes` encode, or why they encode none.
pub open spec fn spec_decode(bytes: Seq<u8>) -> Result<SensorDataModel, DecodeError> {
    spec_decode_fields(bytes, spec_default())
}

/// A varint's value read as a 64-bit two's complement number.
pub fn int64_from_varint(value: u64) -> (r: i64)
    ensures
        r == spec_int64(value as nat),
{
    if value <= 0x7fff_ffff_ffff_ffff {
        value as i64
    } else {
        let high: u64 = value - 0x8000_0000_0000_0000;
        high as i64 + i64::MIN
    }
}

/// The low 32 bits of a varint's value read as a two's complement number.
pub fn int32_from_varint(value: u64) -> (r: i32)
    ensures
        r == spec_int32(value as nat),
{
    let low: u64 = value % 0x1_0000_0000;
    if low <= 0x7fff_ffff {
        low as i32
    } else {
        let high: u64 = low - 0x8000_0000;
        high as i32 + i32::MIN
    }
}

impl SensorData {
    /// The reading in which every field has its default.
    pub fn new() -> (reading: SensorData)
        ensures
            reading@ == spec_default(),
    {
        SensorData { timestamp: 0, datum_bits: 0, domain: 0, device_id: Vec::new() }
    }

    /// Merges the field with the given key, whose value starts at `pos`, into
    /// this reading. Gives the position after the value. After an error the
    /// reading is as it was.
    pub fn merge_field(&mut self, bytes: &[u8], pos: usize, key: FieldKey) -> (r: Result<
        usize,
        DecodeError,
    >)
        requires
            pos <= bytes.len(),
        ensures
            match spec_merge_field(bytes@.skip(pos as int), key, old(self)@) {
                Ok((merged, len)) => r == Ok::<usize, DecodeError>((pos + len) as usize) && pos
                    + len <= bytes.len() && final(self)@ == merged,
                Err(e) => r == Err::<usize, DecodeError>(e) && final(self)@ == old(self)@,
            },
    {
        proof {
            lemma_merge_bounds(bytes@.skip(pos as int), key, self@);
        }
        if key.tag == TIMESTAMP_TAG {
            if key.wire_type != WireType::Varint {
                return Err(DecodeError::WireTypeMismatch);
            }
            let (value, end) = match read_varint(bytes, pos) {
                Ok(found) => found,
                Err(e) => { return Err(e); },
            };
            self.timestamp = int64_from_varint(value);
            Ok(end)
        } else if key.tag == DATUM_TAG {
            if key.wire_type != WireType::SixtyFourBit {
                return Err(DecodeError::WireTypeMismatch);
            }
            let (bits, end) = match read_fixed64(bytes, pos) {
                Ok(found) => found,
                Err(e) => { return Err(e); },
            };
            self.datum_bits = bits;
            Ok(end)
        } else if key.tag == DOMAIN_TAG {
            if key.wire_type != WireType::Varint {
                return Err(DecodeError::WireTypeMismatch);
            }
            let (value, end) = match read_varint(bytes, pos) {
                Ok(found) => found,
                Err(e) => { return Err(e); },
            };
            self.domain = int32_from_varint(value);
            Ok(end)
        } else if key.tag == DEVICE_ID_TAG {
            if key.wire_type != WireType::LengthDelimited {
                return Err(DecodeError::WireTypeMismatch);
            }
            let (start, end) = match read_length_delimited(bytes, pos) {
                Ok(found) => found,
                Err(e) => { return Err(e); },
            };
            self.device_id = slice_to_vec(slice_subrange(bytes, start, end));
            Ok(end)
        } else {
            skip_field(bytes, pos, key, RECURSION_LIMIT)
        }
    }

    /// Decodes a reading from a whole buffer.
    pub fn decode(bytes: &[u8]) -> (r: Result<SensorData, DecodeError>)
        ensures
            match spec_decode(bytes@) {
                Ok(reading) => r matches Ok(decoded) && decoded@ == reading,
                Err(e) => r matches Err(error) && error == e,
            },
    {
        let mut reading = SensorData::new();
        let mut pos: usize = 0;
        assert(bytes@.skip(0) =~= bytes@);
        while pos < bytes.len()
            invariant
                pos <= bytes.len(),
                spec_decode(bytes@) == spec_decode_fields(bytes@.skip(pos as int), reading@),
            decreases bytes.len() - pos,
        {
            let ghost here = bytes@.skip(pos as int);
            proof {
                lemma_key_bounds(here);
            }
            let (key, after_key) = match read_key(bytes, pos) {
                Ok(found) => found,
                Err(e) => { return Err(e); },
            };
            proof {
                lemma_skip_twice(bytes@, pos as int, after_key - pos);
                lemma_merge_bounds(bytes@.skip(after_key as int), key, reading@);
            }
            let after_value = match reading.merge_field(bytes, after_key, key) {
                Ok(end) => end,
                Err(e) => { return Err(e); },
            };
            proof {
                lemma_skip_twice(bytes@, pos as int, after_value - pos);
            }
            pos = after_value;
        }
        Ok(reading)
    }
}

/// A two's complement number of up to 64 bits as the unsigned number with
/// the same bits.
pub open spec fn spec_uint64(value: int) -> nat {
    if value >= 0 {
        value as nat
    } else {
        (value + 0x1_0000_0000_0000_0000) as nat
    }
}

/// The key of the timestamp field.
pub open spec fn timestamp_key() -> FieldKey {
    FieldKey { tag: TIMESTAMP_TAG, wire_type: WireType::Varint }
}

/// The key of the datum field.
pub open spec fn datum_key() -> FieldKey {
    FieldKey { tag: DATUM_TAG, wire_type: WireType::SixtyFourBit }
}

/// The key of the domain field.
pub open spec fn domain_key() -> FieldKey {
    FieldKey { tag: DOMAIN_TAG, wire_type: WireType::Varint }
}

/// The key of the device id field.
pub open spec fn device_id_key() -> FieldKey {
    FieldKey { tag: DEVICE_ID_TAG, wire_type: WireType::LengthDelimited }
}

/// The bytes of the timestamp field: none for 0.
pub open spec fn spec_encode_timestamp(timestamp: i64) -> Seq<u8> {
    if timestamp == 0 {
        Seq::empty()
    } else {
        spec_encode_key(timestamp_key()) + spec_encode_varint(spec_uint64(timestamp as int))
    }
}

/// The bytes of the datum field: none for the bits of positive zero.
pub open spec fn spec_encode_datum(bits: u64) -> Seq<u8> {
    if bits == 0 {
        Seq::empty()
    } else {
        spec_encode_key(datum_key()) + spec_encode_fixed64(bits)
    }
}

/// The bytes of the domain field: none for code 0.
pub open spec fn spec_encode_domain(domain: i32) -> Seq<u8> {
    if domain == 0 {
        Seq::empty()
    } else {
        spec_encode_key(domain_key()) + spec_encode_varint(spec_uint64(domain as int))
    }
}

/// The bytes of the device id field: none for an empty id.
pub open spec fn spec_encode_device_id(device_id: Seq<u8>) -> Seq<u8> {
    if device_id.len() == 0 {
        Seq::empty()
    } else {
        spec_encode_key(device_id_key()) + spec_encode_varint(device_id.len()) + device_id
    }
}

/// The bytes that encode a reading: its fields in the order of their
/// numbers, a field at its default left out.
pub open spec fn spec_encode(reading: SensorDataModel) -> Seq<u8> {
    spec_encode_timestamp(reading.timestamp) + spec_encode_datum(reading.datum_bits)
        + spec_encode_domain(reading.domain) + spec_encode_device_id(reading.device_id)
}

/// Decoding bytes that start with an encoded timestamp sets the timestamp
/// and goes on behind it.
pub proof fn lemma_decode_timestamp(timestamp: i64, rest: Seq<u8>, reading: SensorDataModel)
    ensures
        spec_decode_fields(spec_encode_timestamp(timestamp) + rest, reading) == spec_decode_fields(
            rest,
            if timestamp == 0 {
                reading
            } else {
                SensorDataModel { timestamp, ..reading }
            },
        ),
{
    if timestamp == 0 {
        assert(spec_encode_timestamp(timestamp) + rest =~= rest);
    } else {
        let key_bytes = spec_encode_key(timestamp_key());
        let value = spec_uint64(timestamp as int);
        let value_bytes = spec_encode_varint(value);
        let bytes = spec_encode_timestamp(timestamp) + rest;
        lemma_key_round_trip(timestamp_key(), value_bytes + rest);
        lemma_varint_round_trip(value, rest, 0);
        assert(bytes =~= key_bytes + (value_bytes + rest));
        assert(bytes.skip(key_bytes.len() as int) =~= value_bytes + rest);
        assert(bytes.skip((key_bytes.len() + value_bytes.len()) as int) =~= rest);
        assert(spec_int64(value) == timestamp);
    }
}

/// Decoding bytes that start with an encoded datum sets the datum and goes
/// on behind it.
pub proof fn lemma_decode_datum(bits: u64, rest: Seq<u8>, reading: SensorDataModel)
    ensures
        spec_decode_fields(spec_encode_datum(bits) + rest, reading) == spec_decode_fields(
            rest,
            if bits == 0 {
                reading
            } else {
                SensorDataModel { datum_bits: bits, ..reading }
            },
        ),
{
    if bits == 0 {
        assert(spec_encode_datum(bits) + rest =~= rest);
    } else {
        let key_bytes = spec_encode_key(datum_key());
        let value_bytes = spec_encode_fixed64(bits);
        let bytes = spec_encode_datum(bits) + rest;
        lemma_key_round_trip(datum_key(), value_bytes + rest);
        lemma_fixed64_round_trip(bits, rest);
        assert(bytes =~= key_bytes + (value_bytes + rest));
        assert(bytes.skip(key_bytes.len() as int) =~= value_bytes + rest);
        assert(bytes.skip((key_bytes.len() + value_bytes.len()) as int) =~= rest);
    }
}

/// Decoding bytes that start with an encoded domain sets the domain and
/// goes on behind it.
pub proof fn lemma_decode_domain(domain: i32, rest: Seq<u8>, reading: SensorDataModel)
    ensures
        spec_decode_fields(spec_encode_domain(domain) + rest, reading) == spec_decode_fields(
            rest,
            if domain == 0 {
                reading
            } else {
                SensorDataModel { domain, ..reading }
            },
        ),
{
    if domain == 0 {
        assert(spec_encode_domain(domain) + rest =~= rest);
    } else {
        let key_bytes = spec_encode_key(domain_key());
        let value = spec_uint64(domain as int);
        let value_bytes = spec_encode_varint(value);
        let bytes = spec_encode_domain(domain) + rest;
        lemma_key_round_trip(domain_key(), value_bytes + rest);
        lemma_varint_round_trip(value, rest, 0);
        assert(bytes =~= key_bytes + (value_bytes + rest));
        assert(bytes.skip(key_bytes.len() as int) =~= value_bytes + rest);
        assert(bytes.skip((key_bytes.len() + value_bytes.len()) as int) =~= rest);
        assert(spec_int32(value) == domain);
    }
}

/// Decoding bytes that start with an encoded device id sets the device id
/// and goes on behind it.
pub proof fn lemma_decode_device_id(device_id: Seq<u8>, rest: Seq<u8>, reading: SensorDataModel)
    requires
        device_id.len() <= u64::MAX,
    ensures
        spec_decode_fields(spec_encode_device_id(device_id) + rest, reading) == spec_decode_fields(
            rest,
            if device_id.len() == 0 {
                reading
            } else {
                SensorDataModel { device_id, ..reading }
            },
        ),
{
    if device_id.len() == 0 {
        assert(spec_encode_device_id(device_id) + rest =~= rest);
    } else {
        let key_bytes = spec_encode_key(device_id_key());
        let len_bytes = spec_encode_varint(device_id.len());
        let bytes = spec_encode_device_id(device_id) + rest;
        let body = len_bytes + device_id + rest;
        lemma_key_round_trip(device_id_key(), body);
        lemma_varint_round_trip(device_id.len(), device_id + rest, 0);
        assert(bytes =~= key_bytes + body);
        assert(bytes.skip(key_bytes.len() as int) =~= body);
        assert(body =~= len_bytes + (device_id + rest));
        assert(body.subrange(len_bytes.len() as int, (len_bytes.len() + device_id.len()) as int)
            =~= device_id);
        assert(bytes.skip((key_bytes.len() + (len_bytes.len() + device_id.len())) as int) =~= rest);
    }
}

/// Decoding what encodes a reading gives the reading.
pub proof fn theorem_decode_inverts_encode(reading: SensorDataModel)
    requires
        reading.device_id.len() <= u64::MAX,
    ensures
        spec_decode(spec_encode(reading)) == Ok::<SensorDataModel, DecodeError>(reading),
{
    let timestamp = spec_encode_timestamp(reading.timestamp);
    let datum = spec_encode_datum(reading.datum_bits);
    let domain = spec_encode_domain(reading.domain);
    let device_id = spec_encode_device_id(reading.device_id);
    let none = Seq::<u8>::empty();
    let r0 = spec_default();
    let r1 = SensorDataModel { timestamp: reading.timestamp, ..r0 };
    let r2 = SensorDataModel { datum_bits: reading.datum_bits, ..r1 };
    let r3 = SensorDataModel { domain: reading.domain, ..r2 };
    let r4 = SensorDataModel { device_id: reading.device_id, ..r3 };
    assert(spec_encode(reading) =~= timestamp + (datum + (domain + (device_id + none))));
    lemma_decode_timestamp(reading.timestamp, datum + (domain + (device_id + none)), r0);
    lemma_decode_datum(reading.datum_bits, domain + (device_id + none), r1);
    lemma_decode_domain(reading.domain, device_id + none, r2);
    lemma_decode_device_id(reading.device_id, none, r3);
    assert(r0.device_id =~= reading.device_id <==> reading.device_id.len() == 0);
    assert(r4 == reading);
}

/// A 64-bit two's complement number as the unsigned number with the same
/// bits.
pub fn uint64_from_int64(value: i64) -> (r: u64)
    ensures
        r == spec_uint64(value as int),
{
    if value >= 0 {
        value as u64
    } else {
        let low: i64 = value - i64::MIN;
        low as u64 + 0x8000_0000_0000_0000
    }
}

impl SensorData {
    /// Encodes the reading: its fields in the order of their numbers, a
    /// field at its default left out.
    pub fn encode(&self) -> (bytes: Vec<u8>)
        ensures
            bytes@ == spec_encode(self@),
            spec_decode(bytes@) == Ok::<SensorDataModel, DecodeError>(self@),
    {
        let mut out: Vec<u8> = Vec::new();
        if self.timestamp != 0 {
            write_key(&mut out, FieldKey { tag: TIMESTAMP_TAG, wire_type: WireType::Varint });
            write_varint(&mut out, uint64_from_int64(self.timestamp));
        }
        assert(out@ =~= spec_encode_timestamp(self.timestamp));
        if self.datum_bits != 0 {
            write_key(&mut out, FieldKey { tag: DATUM_TAG, wire_type: WireType::SixtyFourBit });
            write_fixed64(&mut out, self.datum_bits);
        }
        assert(out@ =~= spec_encode_timestamp(self.timestamp) + spec_encode_datum(
            self.datum_bits,
        ));
        if self.domain != 0 {
            write_key(&mut out, FieldKey { tag: DOMAIN_TAG, wire_type: WireType::Varint });
            write_varint(&mut out, uint64_from_int64(self.domain as i64));
        }
        assert(out@ =~= spec_encode_timestamp(self.timestamp) + spec_encode_datum(self.datum_bits)
            + spec_encode_domain(self.domain));
        if self.device_id.len() > 0 {
            write_key(
                &mut out,
                FieldKey { tag: DEVICE_ID_TAG, wire_type: WireType::LengthDelimited },
            );
            write_varint(&mut out, self.device_id.len() as u64);
            out.extend_from_slice(self.device_id.as_slice());
        }
        assert(out@ =~= spec_encode(self@));
        proof {
            theorem_decode_inverts_encode(self@);
        }
        out
    }
}

/// The measurement domains a reading can name.
#[derive(Clone, Copy, Debug, PartialEq, Eq, Structural)]
pub enum Domain {
    Unspecified,
    SoundPressureLevel,
}

/// The label of readings whose domain code names no [`Domain`].
pub const UNKNOWN_DOMAIN: &'static str = "unknown";

impl Domain {
    /// The domain with the given code, if there is one.
    pub open spec fn spec_from_i32(code: i32) -> Option<Domain> {
        if code == 0 {
            Some(Domain::Unspecified)
        } else if code == 1 {
            Some(Domain::SoundPressureLevel)
        } else {
            None
        }
    }

    /// The domain with the given code, if there is one.
    #[verifier::when_used_as_spec(spec_from_i32)]
    pub fn from_i32(code: i32) -> (domain: Option<Domain>)
        ensures
            domain == Domain::spec_from_i32(code),
    {
        if code == 0 {
            Some(Domain::Unspecified)
        } else if code == 1 {
            Some(Domain::SoundPressureLevel)
        } else {
            None
        }
    }

    /// The code that stands for this domain on the wire.
    pub fn code(self) -> (code: i32)
        ensures
            Domain::spec_from_i32(code) == Some(self),
    {
        match self {
            Domain::Unspecified => 0,
            Domain::SoundPressureLevel => 1,
        }
    }

    /// The name under which readings of this domain are stored.
    pub open spec fn spec_as_str_name(self) -> Seq<char> {
        match self {
            Domain::Unspecified => "unspecified"@,
            Domain::SoundPressureLevel => "sound-pressure-level"@,
        }
    }

    /// The name under which readings of this domain are stored.
    pub fn as_str_name(self) -> (name: &'static str)
        ensures
            name@ == self.spec_as_str_name(),
    {
        match self {
            Domain::Unspecified => "unspecified",
            Domain::SoundPressureLevel => "sound-pressure-level",
        }
    }
}

/// The label of a domain code: the domain's name, or [`UNKNOWN_DOMAIN`] for a
/// code that names none.
pub open spec fn spec_domain_label(code: i32) -> Seq<char> {
    match Domain::spec_from_i32(code) {
        Some(domain) => domain.spec_as_str_name(),
        None => UNKNOWN_DOMAIN@,
    }
}

/// The label of a domain code. Every code has one.
pub fn domain_label(code: i32) -> (label: &'static str)
    ensures
        label@ == spec_domain_label(code),
{
    match Domain::from_i32(code) {
        Some(domain) => domain.as_str_name(),
        None => UNKNOWN_DOMAIN,
    }
}

} // verus!
