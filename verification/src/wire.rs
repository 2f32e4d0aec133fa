//! The Protocol Buffers wire format, as far as a reading is made of it:
//! base-128 varints, field keys, little-endian fixed-width values, and the
//! skipping of fields a message does not know.
//!
//! Each reader takes the whole buffer and a position, and is specified by a
//! function on the bytes from that position on.

use vstd::prelude::*;

verus! {

/// A varint is never longer than this many bytes.
pub const MAX_VARINT_BYTES: u8 = 10;

/// How deeply groups may nest inside a skipped field.
pub const RECURSION_LIMIT: u32 = 100;

/// How a field's value is laid out on the wire.
#[derive(Clone, Copy, Debug, PartialEq, Eq, Structural)]
pub enum WireType {
    Varint,
    SixtyFourBit,
    LengthDelimited,
    StartGroup,
    EndGroup,
    ThirtyTwoBit,
}

/// Why a buffer is not a well-formed message.
#[derive(Clone, Copy, Debug, PartialEq, Eq, Structural)]
pub enum DecodeError {
    /// A varint is cut short, runs past ten bytes, or does not fit 64 bits.
    InvalidVarint,
    /// A field key does not fit 32 bits.
    InvalidKey,
    /// A field key names wire type 6 or 7.
    InvalidWireType,
    /// A field key names field number 0.
    InvalidTag,
    /// A known field arrives with another wire type than its own.
    WireTypeMismatch,
    /// A value claims more bytes than the buffer holds.
    BufferUnderflow,
    /// A group end without its start, or closing another group.
    UnexpectedEndGroup,
    /// Groups nested deeper than [`RECURSION_LIMIT`].
    RecursionLimit,
}

impl DecodeError {
    /// What the log says of this error.
    pub open spec fn spec_description(self) -> Seq<char> {
        match self {
            DecodeError::InvalidVarint => "invalid varint"@,
            DecodeError::InvalidKey => "invalid key value"@,
            DecodeError::InvalidWireType => "invalid wire type value"@,
            DecodeError::InvalidTag => "invalid tag value: 0"@,
            DecodeError::WireTypeMismatch => "invalid wire type"@,
            DecodeError::BufferUnderflow => "buffer underflow"@,
            DecodeError::UnexpectedEndGroup => "unexpected end group tag"@,
            DecodeError::RecursionLimit => "recursion limit reached"@,
        }
    }

    /// What the log says of this error.
    pub fn description(self) -> (text: &'static str)
        ensures
            text@ == self.spec_description(),
    {
        match self {
            DecodeError::InvalidVarint => "invalid varint",
            DecodeError::InvalidKey => "invalid key value",
            DecodeError::InvalidWireType => "invalid wire type value",
            DecodeError::InvalidTag => "invalid tag value: 0",
            DecodeError::WireTypeMismatch => "invalid wire type",
            DecodeError::BufferUnderflow => "buffer underflow",
            DecodeError::UnexpectedEndGroup => "unexpected end group tag",
            DecodeError::RecursionLimit => "recursion limit reached",
        }
    }
}

/// A decoded field key: the field number and the wire type of its value.
#[derive(Clone, Copy, Debug, PartialEq, Eq, Structural)]
pub struct FieldKey {
    pub tag: u32,
    pub wire_type: WireType,
}

/// The exclusive bound on what the rest of a varint may be worth once `count`
/// of its bytes have been read: `2^(64 - 7 * count)`.
pub open spec fn varint_limit(count: nat) -> nat {
    if count == 0 {
        0x1_0000_0000_0000_0000
    } else if count == 1 {
        0x200_0000_0000_0000
    } else if count == 2 {
        0x4_0000_0000_0000
    } else if count == 3 {
        0x800_0000_0000
    } else if count == 4 {
        0x10_0000_0000
    } else if count == 5 {
        0x2000_0000
    } else if count == 6 {
        0x40_0000
    } else if count == 7 {
        0x8000
    } else if count == 8 {
        0x100
    } else {
        2
    }
}

/// The varint at the head of `bytes`, of which `count` earlier bytes were
/// already read: its value (least significant group first) and its length.
/// `None` where the bytes end before a byte below `0x80`, where that byte
/// would be the eleventh, or where the tenth byte carries more than one bit.
pub open spec fn spec_varint(bytes: Seq<u8>, count: nat) -> Option<(nat, nat)>
    decreases bytes.len(),
{
    if bytes.len() == 0 || count >= MAX_VARINT_BYTES {
        None
    } else if bytes[0] < 0x80 {
        if count == MAX_VARINT_BYTES - 1 && bytes[0] >= 2 {
            None
        } else {
            Some((bytes[0] as nat, 1))
        }
    } else {
        match spec_varint(bytes.skip(1), count + 1) {
            Some((rest, len)) => Some(((bytes[0] - 0x80) as nat + 128 * rest, len + 1)),
            None => None,
        }
    }
}

/// A varint is worth less than its limit and is one to ten bytes long, all
/// of them inside the buffer.
pub proof fn lemma_varint_bounds(bytes: Seq<u8>, count: nat)
    ensures
        match spec_varint(bytes, count) {
            Some((value, len)) => value < varint_limit(count) && 1 <= len && len + count <= 10
                && len <= bytes.len(),
            None => true,
        },
    decreases bytes.len(),
{
    if bytes.len() == 0 || count >= 10 {
    } else if bytes[0] < 0x80 {
    } else {
        lemma_varint_bounds(bytes.skip(1), count + 1);
    }
}

/// The wire type with the given number, if there is one.
pub open spec fn spec_wire_type(number: nat) -> Option<WireType> {
    if number == 0 {
        Some(WireType::Varint)
    } else if number == 1 {
        Some(WireType::SixtyFourBit)
    } else if number == 2 {
        Some(WireType::LengthDelimited)
    } else if number == 3 {
        Some(WireType::StartGroup)
    } else if number == 4 {
        Some(WireType::EndGroup)
    } else if number == 5 {
        Some(WireType::ThirtyTwoBit)
    } else {
        None
    }
}

/// The field key at the head of `bytes` and its length: a varint that fits
/// 32 bits, whose low three bits name the wire type and whose other bits
/// are the field number, which is not 0.
pub open spec fn spec_key(bytes: Seq<u8>) -> Result<(FieldKey, nat), DecodeError> {
    match spec_varint(bytes, 0) {
        None => Err(DecodeError::InvalidVarint),
        Some((key, len)) => {
            if key > u32::MAX {
                Err(DecodeError::InvalidKey)
            } else {
                match spec_wire_type(key % 8) {
                    None => Err(DecodeError::InvalidWireType),
                    Some(wire_type) => {
                        if key / 8 == 0 {
                            Err(DecodeError::InvalidTag)
                        } else {
                            Ok((FieldKey { tag: (key / 8) as u32, wire_type }, len))
                        }
                    },
                }
            }
        },
    }
}

/// The little-endian number that the first `width` bytes spell.
pub open spec fn spec_little_endian(bytes: Seq<u8>, width: nat) -> nat
    decreases width,
{
    if width == 0 {
        0
    } else {
        bytes[0] as nat + 256 * spec_little_endian(bytes.skip(1), (width - 1) as nat)
    }
}

/// The 64-bit little-endian value at the head of `bytes`.
pub open spec fn spec_fixed64(bytes: Seq<u8>) -> Result<(u64, nat), DecodeError> {
    if bytes.len() < 8 {
        Err(DecodeError::BufferUnderflow)
    } else {
        Ok((spec_little_endian(bytes, 8) as u64, 8))
    }
}

/// The length-delimited value at the head of `bytes`: the payload and the
/// length of the whole, length prefix included.
pub open spec fn spec_length_delimited(bytes: Seq<u8>) -> Result<(Seq<u8>, nat), DecodeError> {
    match spec_varint(bytes, 0) {
        None => Err(DecodeError::InvalidVarint),
        Some((len, prefix)) => {
            if len > bytes.len() - prefix {
                Err(DecodeError::BufferUnderflow)
            } else {
                Ok((bytes.subrange(prefix as int, (prefix + len) as int), prefix + len))
            }
        },
    }
}

/// The length of the value of an unknown field at the head of `bytes`, given
/// its key. `depth` is how many more levels of groups may open.
pub open spec fn spec_skip(bytes: Seq<u8>, key: FieldKey, depth: nat) -> Result<nat, DecodeError>
    decreases depth, bytes.len(), 1nat,
{
    if depth == 0 {
        Err(DecodeError::RecursionLimit)
    } else {
        match key.wire_type {
            WireType::Varint => match spec_varint(bytes, 0) {
                None => Err(DecodeError::InvalidVarint),
                Some((_, len)) => Ok(len),
            },
            WireType::ThirtyTwoBit => if bytes.len() < 4 {
                Err(DecodeError::BufferUnderflow)
            } else {
                Ok(4)
            },
            WireType::SixtyFourBit => if bytes.len() < 8 {
                Err(DecodeError::BufferUnderflow)
            } else {
                Ok(8)
            },
            WireType::LengthDelimited => match spec_length_delimited(bytes) {
                Err(e) => Err(e),
                Ok((_, len)) => Ok(len),
            },
            WireType::StartGroup => spec_skip_group(bytes, key.tag, depth),
            WireType::EndGroup => Err(DecodeError::UnexpectedEndGroup),
        }
    }
}

/// The length of the rest of a group with field number `tag`, up to and
/// with the key that ends it. The fields inside may open `depth - 1` more
/// levels of groups. (No field inside runs past the buffer: the test for it
/// only shows that the function ends; see [`lemma_skip_bounds`].)
pub open spec fn spec_skip_group(bytes: Seq<u8>, tag: u32, depth: nat) -> Result<
    nat,
    DecodeError,
>
    decreases depth, bytes.len(), 0nat,
{
    if depth == 0 {
        Err(DecodeError::RecursionLimit)
    } else {
        match spec_key(bytes) {
            Err(e) => Err(e),
            Ok((inner, key_len)) => {
                if inner.wire_type == WireType::EndGroup {
                    if inner.tag != tag {
                        Err(DecodeError::UnexpectedEndGroup)
                    } else {
                        Ok(key_len)
                    }
                } else {
                    match spec_skip(bytes.skip(key_len as int), inner, (depth - 1) as nat) {
                        Err(e) => Err(e),
                        Ok(value_len) => {
                            if key_len + value_len > bytes.len() {
                                Err(DecodeError::BufferUnderflow)
                            } else {
                                proof {
                                    lemma_key_bounds(bytes);
                                }
                                match spec_skip_group(
                                    bytes.skip((key_len + value_len) as int),
                                    tag,
                                    depth,
                                ) {
                                    Err(e) => Err(e),
                                    Ok(rest) => Ok(key_len + value_len + rest),
                                }
                            }
                        },
                    }
                }
            },
        }
    }
}

/// A key is at least one byte long and lies inside the buffer.
pub proof fn lemma_key_bounds(bytes: Seq<u8>)
    ensures
        match spec_key(bytes) {
            Ok((key, len)) => 1 <= len <= bytes.len() && len <= 10 && key.tag >= 1,
            Err(_) => true,
        },
{
    lemma_varint_bounds(bytes, 0);
}

/// A skipped value lies inside the buffer.
pub proof fn lemma_skip_bounds(bytes: Seq<u8>, key: FieldKey, depth: nat)
    ensures
        match spec_skip(bytes, key, depth) {
            Ok(len) => len <= bytes.len(),
            Err(_) => true,
        },
    decreases depth, bytes.len(), 1nat,
{
    if depth != 0 {
        match key.wire_type {
            WireType::Varint => lemma_varint_bounds(bytes, 0),
            WireType::LengthDelimited => lemma_varint_bounds(bytes, 0),
            WireType::StartGroup => lemma_skip_group_bounds(bytes, key.tag, depth),
            _ => {},
        }
    }
}

/// A skipped group lies inside the buffer and is at least one key long.
pub proof fn lemma_skip_group_bounds(bytes: Seq<u8>, tag: u32, depth: nat)
    ensures
        match spec_skip_group(bytes, tag, depth) {
            Ok(len) => 1 <= len <= bytes.len(),
            Err(_) => true,
        },
    decreases depth, bytes.len(), 0nat,
{
    if depth != 0 {
        lemma_key_bounds(bytes);
        match spec_key(bytes) {
            Err(_) => {},
            Ok((inner, key_len)) => {
                if inner.wire_type != WireType::EndGroup {
                    let rest = bytes.skip(key_len as int);
                    lemma_skip_bounds(rest, inner, (depth - 1) as nat);
                    match spec_skip(rest, inner, (depth - 1) as nat) {
                        Err(_) => {},
                        Ok(value_len) => {
                            lemma_skip_group_bounds(
                                bytes.skip((key_len + value_len) as int),
                                tag,
                                depth,
                            );
                        },
                    }
                }
            },
        }
    }
}

/// Skipping `a` bytes and then `b` more is skipping `a + b`.
pub proof fn lemma_skip_twice(bytes: Seq<u8>, a: int, b: int)
    requires
        0 <= a,
        0 <= b,
        a + b <= bytes.len(),
    ensures
        bytes.skip(a).skip(b) == bytes.skip(a + b),
{
    assert(bytes.skip(a).skip(b) =~= bytes.skip(a + b));
}

fn read_varint_from(bytes: &[u8], pos: usize, count: u8) -> (r: Option<(u64, usize)>)
    requires
        pos <= bytes.len(),
        count <= 10,
    ensures
        match spec_varint(bytes@.skip(pos as int), count as nat) {
            Some((value, len)) => r == Some((value as u64, (pos + len) as usize)) && value
                < varint_limit(count as nat) && pos + len <= bytes.len(),
            None => r is None,
        },
    decreases 10 - count,
{
    let ghost tail = bytes@.skip(pos as int);
    proof {
        lemma_varint_bounds(tail, count as nat);
    }
    if pos >= bytes.len() || count >= MAX_VARINT_BYTES {
        return None;
    }
    let byte: u8 = bytes[pos];
    assert(tail[0] == byte);
    if byte < 0x80 {
        if count == MAX_VARINT_BYTES - 1 && byte >= 2 {
            None
        } else {
            Some((byte as u64, pos + 1))
        }
    } else {
        proof {
            lemma_skip_twice(bytes@, pos as int, 1);
        }
        match read_varint_from(bytes, pos + 1, count + 1) {
            Some((rest, end)) => {
                assert(128 * varint_limit((count + 1) as nat) == varint_limit(count as nat));
                let low: u64 = (byte - 0x80) as u64;
                Some((low + 128 * rest, end))
            },
            None => None,
        }
    }
}

/// Reads the varint that starts at `pos`. Gives its value and the position
/// after it.
pub fn read_varint(bytes: &[u8], pos: usize) -> (r: Result<(u64, usize), DecodeError>)
    requires
        pos <= bytes.len(),
    ensures
        match spec_varint(bytes@.skip(pos as int), 0) {
            Some((value, len)) => r == Ok::<(u64, usize), DecodeError>(
                (value as u64, (pos + len) as usize),
            ) && value <= u64::MAX && 1 <= len <= 10 && pos + len <= bytes.len(),
            None => r == Err::<(u64, usize), DecodeError>(DecodeError::InvalidVarint),
        },
{
    proof {
        lemma_varint_bounds(bytes@.skip(pos as int), 0);
    }
    match read_varint_from(bytes, pos, 0) {
        Some(found) => Ok(found),
        None => Err(DecodeError::InvalidVarint),
    }
}

/// The wire type with the given number, if there is one.
pub fn wire_type_from(number: u64) -> (r: Option<WireType>)
    ensures
        r == spec_wire_type(number as nat),
{
    if number == 0 {
        Some(WireType::Varint)
    } else if number == 1 {
        Some(WireType::SixtyFourBit)
    } else if number == 2 {
        Some(WireType::LengthDelimited)
    } else if number == 3 {
        Some(WireType::StartGroup)
    } else if number == 4 {
        Some(WireType::EndGroup)
    } else if number == 5 {
        Some(WireType::ThirtyTwoBit)
    } else {
        None
    }
}

/// Reads the field key that starts at `pos`. Gives the key and the position
/// after it.
pub fn read_key(bytes: &[u8], pos: usize) -> (r: Result<(FieldKey, usize), DecodeError>)
    requires
        pos <= bytes.len(),
    ensures
        match spec_key(bytes@.skip(pos as int)) {
            Ok((key, len)) => r == Ok::<(FieldKey, usize), DecodeError>(
                (key, (pos + len) as usize),
            ) && 1 <= len && pos + len <= bytes.len(),
            Err(e) => r == Err::<(FieldKey, usize), DecodeError>(e),
        },
{
    let (key, end) = match read_varint(bytes, pos) {
        Ok(found) => found,
        Err(e) => { return Err(e); },
    };
    if key > 0xffff_ffff {
        return Err(DecodeError::InvalidKey);
    }
    let wire_type = match wire_type_from(key % 8) {
        Some(wire_type) => wire_type,
        None => { return Err(DecodeError::InvalidWireType); },
    };
    let tag: u32 = (key / 8) as u32;
    if tag == 0 {
        return Err(DecodeError::InvalidTag);
    }
    Ok((FieldKey { tag, wire_type }, end))
}

/// Reads the eight bytes at `pos` as a little-endian number. Gives it and
/// the position after it.
pub fn read_fixed64(bytes: &[u8], pos: usize) -> (r: Result<(u64, usize), DecodeError>)
    requires
        pos <= bytes.len(),
    ensures
        match spec_fixed64(bytes@.skip(pos as int)) {
            Ok((value, len)) => r == Ok::<(u64, usize), DecodeError>(
                (value, (pos + len) as usize),
            ) && pos + len <= bytes.len(),
            Err(e) => r == Err::<(u64, usize), DecodeError>(e),
        },
{
    if bytes.len() - pos < 8 {
        return Err(DecodeError::BufferUnderflow);
    }
    let ghost tail = bytes@.skip(pos as int);
    let mut value: u64 = 0;
    let mut i: usize = 8;
    while i > 0
        invariant
            i <= 8,
            pos + 8 <= bytes.len(),
            tail == bytes@.skip(pos as int),
            value == spec_little_endian(tail.skip(i as int), (8 - i) as nat),
            value < byte_scale((8 - i) as nat),
        decreases i,
    {
        i = i - 1;
        let byte: u8 = bytes[pos + i];
        proof {
            assert(tail.skip(i as int)[0] == byte);
            assert(tail.skip(i as int).skip(1) =~= tail.skip(i + 1));
            assert(256 * byte_scale((7 - i) as nat) == byte_scale((8 - i) as nat));
        }
        value = byte as u64 + 256 * value;
    }
    assert(tail.skip(0) =~= tail);
    Ok((value, pos + 8))
}

/// `256^width`, for widths up to eight bytes.
pub open spec fn byte_scale(width: nat) -> nat {
    if width == 0 {
        1
    } else if width == 1 {
        0x100
    } else if width == 2 {
        0x1_0000
    } else if width == 3 {
        0x100_0000
    } else if width == 4 {
        0x1_0000_0000
    } else if width == 5 {
        0x100_0000_0000
    } else if width == 6 {
        0x1_0000_0000_0000
    } else if width == 7 {
        0x100_0000_0000_0000
    } else {
        0x1_0000_0000_0000_0000
    }
}

/// Reads the length-delimited value at `pos`. Gives the positions where
/// its payload starts and ends; the next field starts at the end.
pub fn read_length_delimited(bytes: &[u8], pos: usize) -> (r: Result<(usize, usize), DecodeError>)
    requires
        pos <= bytes.len(),
    ensures
        match spec_length_delimited(bytes@.skip(pos as int)) {
            Ok((payload, len)) => r matches Ok((start, end)) && pos <= start <= end && end == pos
                + len && end <= bytes.len() && payload == bytes@.subrange(
                start as int,
                end as int,
            ),
            Err(e) => r == Err::<(usize, usize), DecodeError>(e),
        },
{
    let (len, start) = match read_varint(bytes, pos) {
        Ok(found) => found,
        Err(e) => { return Err(e); },
    };
    if len > (bytes.len() - start) as u64 {
        return Err(DecodeError::BufferUnderflow);
    }
    let end: usize = start + len as usize;
    proof {
        let tail = bytes@.skip(pos as int);
        assert(tail.subrange(start - pos, end - pos) =~= bytes@.subrange(start as int, end as int));
    }
    Ok((start, end))
}

/// Skips the value of an unknown field whose key was just read and whose
/// value starts at `pos`. Gives the position after the value.
pub fn skip_field(bytes: &[u8], pos: usize, key: FieldKey, depth: u32) -> (r: Result<
    usize,
    DecodeError,
>)
    requires
        pos <= bytes.len(),
    ensures
        match spec_skip(bytes@.skip(pos as int), key, depth as nat) {
            Ok(len) => r == Ok::<usize, DecodeError>((pos + len) as usize) && pos + len
                <= bytes.len(),
            Err(e) => r == Err::<usize, DecodeError>(e),
        },
    decreases depth,
{
    let ghost tail = bytes@.skip(pos as int);
    proof {
        lemma_skip_bounds(tail, key, depth as nat);
    }
    if depth == 0 {
        return Err(DecodeError::RecursionLimit);
    }
    match key.wire_type {
        WireType::Varint => match read_varint(bytes, pos) {
            Ok((_, end)) => Ok(end),
            Err(e) => Err(e),
        },
        WireType::ThirtyTwoBit => if bytes.len() - pos < 4 {
            Err(DecodeError::BufferUnderflow)
        } else {
            Ok(pos + 4)
        },
        WireType::SixtyFourBit => if bytes.len() - pos < 8 {
            Err(DecodeError::BufferUnderflow)
        } else {
            Ok(pos + 8)
        },
        WireType::LengthDelimited => match read_length_delimited(bytes, pos) {
            Ok((_, end)) => Ok(end),
            Err(e) => Err(e),
        },
        WireType::EndGroup => Err(DecodeError::UnexpectedEndGroup),
        WireType::StartGroup => {
            let mut cur: usize = pos;
            loop
                invariant
                    pos <= cur <= bytes.len(),
                    depth > 0,
                    key.wire_type == WireType::StartGroup,
                    tail == bytes@.skip(pos as int),
                    spec_skip_group(tail, key.tag, depth as nat) == match spec_skip_group(
                        bytes@.skip(cur as int),
                        key.tag,
                        depth as nat,
                    ) {
                        Ok(rest) => Ok::<nat, DecodeError>((cur - pos + rest) as nat),
                        Err(e) => Err(e),
                    },
                decreases bytes.len() - cur,
            {
                let ghost here = bytes@.skip(cur as int);
                proof {
                    lemma_key_bounds(here);
                    lemma_skip_group_bounds(here, key.tag, depth as nat);
                }
                let (inner, after_key) = match read_key(bytes, cur) {
                    Ok(found) => found,
                    Err(e) => { return Err(e); },
                };
                if inner.wire_type == WireType::EndGroup {
                    if inner.tag != key.tag {
                        return Err(DecodeError::UnexpectedEndGroup);
                    }
                    return Ok(after_key);
                }
                proof {
                    lemma_skip_twice(bytes@, cur as int, after_key - cur);
                    lemma_skip_bounds(bytes@.skip(after_key as int), inner, (depth - 1) as nat);
                }
                let after_value = match skip_field(bytes, after_key, inner, depth - 1) {
                    Ok(end) => end,
                    Err(e) => { return Err(e); },
                };
                proof {
                    lemma_skip_twice(bytes@, cur as int, after_value - cur);
                    lemma_skip_group_bounds(
                        bytes@.skip(after_value as int),
                        key.tag,
                        depth as nat,
                    );
                }
                cur = after_value;
            }
        },
    }
}

/// The varint that encodes `value`: seven bits to a byte, the least
/// significant first, each byte but the last marked with the high bit.
pub open spec fn spec_encode_varint(value: nat) -> Seq<u8>
    decreases value,
{
    if value < 0x80 {
        seq![value as u8]
    } else {
        seq![(value % 0x80 + 0x80) as u8] + spec_encode_varint(value / 0x80)
    }
}

/// The number of the given wire type.
pub open spec fn spec_wire_type_number(wire_type: WireType) -> nat {
    match wire_type {
        WireType::Varint => 0,
        WireType::SixtyFourBit => 1,
        WireType::LengthDelimited => 2,
        WireType::StartGroup => 3,
        WireType::EndGroup => 4,
        WireType::ThirtyTwoBit => 5,
    }
}

/// The bytes that encode a field key.
pub open spec fn spec_encode_key(key: FieldKey) -> Seq<u8> {
    spec_encode_varint(key.tag as nat * 8 + spec_wire_type_number(key.wire_type))
}

/// The `width` bytes that spell `value`, the least significant first.
pub open spec fn spec_encode_little_endian(value: nat, width: nat) -> Seq<u8>
    decreases width,
{
    if width == 0 {
        Seq::empty()
    } else {
        seq![(value % 0x100) as u8] + spec_encode_little_endian(value / 0x100, (width - 1) as nat)
    }
}

/// The eight bytes that spell `value`, the least significant first.
pub open spec fn spec_encode_fixed64(value: u64) -> Seq<u8> {
    spec_encode_little_endian(value as nat, 8)
}

/// An encoded varint is one to ten bytes long.
pub proof fn lemma_encode_varint_len(value: nat, count: nat)
    requires
        value < varint_limit(count),
        count <= 9,
    ensures
        1 <= spec_encode_varint(value).len() <= 10 - count,
    decreases value,
{
    if value >= 0x80 {
        assert(128 * varint_limit(count + 1) == varint_limit(count));
        lemma_encode_varint_len(value / 0x80, count + 1);
    }
}

/// Reading an encoded varint gives the value back, whatever follows it.
pub proof fn lemma_varint_round_trip(value: nat, rest: Seq<u8>, count: nat)
    requires
        value < varint_limit(count),
        count <= 9,
    ensures
        spec_varint(spec_encode_varint(value) + rest, count) == Some(
            (value, spec_encode_varint(value).len()),
        ),
    decreases value,
{
    let bytes = spec_encode_varint(value) + rest;
    if value < 0x80 {
        assert(bytes[0] == value as u8);
    } else {
        assert(128 * varint_limit(count + 1) == varint_limit(count));
        assert(bytes[0] == (value % 0x80 + 0x80) as u8);
        assert(bytes.skip(1) =~= spec_encode_varint(value / 0x80) + rest);
        lemma_varint_round_trip(value / 0x80, rest, count + 1);
    }
}

/// Reading an encoded key gives the key back, whatever follows it.
pub proof fn lemma_key_round_trip(key: FieldKey, rest: Seq<u8>)
    requires
        1 <= key.tag < 0x2000_0000,
    ensures
        spec_key(spec_encode_key(key) + rest) == Ok::<(FieldKey, nat), DecodeError>(
            (key, spec_encode_key(key).len()),
        ),
        spec_encode_key(key).len() >= 1,
{
    let number = key.tag as nat * 8 + spec_wire_type_number(key.wire_type);
    lemma_varint_round_trip(number, rest, 0);
    lemma_encode_varint_len(number, 0);
    assert(number % 8 == spec_wire_type_number(key.wire_type));
    assert(number / 8 == key.tag);
}

/// Reading encoded little-endian bytes gives the value back, whatever
/// follows them.
pub proof fn lemma_little_endian_round_trip(value: nat, width: nat, rest: Seq<u8>)
    requires
        width <= 8,
        value < byte_scale(width),
    ensures
        spec_encode_little_endian(value, width).len() == width,
        spec_little_endian(spec_encode_little_endian(value, width) + rest, width) == value,
    decreases width,
{
    if width > 0 {
        let bytes = spec_encode_little_endian(value, width) + rest;
        assert(256 * byte_scale((width - 1) as nat) == byte_scale(width));
        lemma_little_endian_round_trip(value / 0x100, (width - 1) as nat, rest);
        assert(bytes[0] == (value % 0x100) as u8);
        assert(bytes.skip(1) =~= spec_encode_little_endian(value / 0x100, (width - 1) as nat)
            + rest);
    }
}

/// Reading eight encoded bytes gives the value back, whatever follows them.
pub proof fn lemma_fixed64_round_trip(value: u64, rest: Seq<u8>)
    ensures
        spec_fixed64(spec_encode_fixed64(value) + rest) == Ok::<(u64, nat), DecodeError>(
            (value, 8),
        ),
        spec_encode_fixed64(value).len() == 8,
{
    lemma_little_endian_round_trip(value as nat, 8, rest);
}

/// Appends the varint that encodes `value`.
pub fn write_varint(out: &mut Vec<u8>, value: u64)
    ensures
        final(out)@ == old(out)@ + spec_encode_varint(value as nat),
    decreases value,
{
    if value < 0x80 {
        out.push(value as u8);
        assert(out@ =~= old(out)@ + spec_encode_varint(value as nat));
    } else {
        out.push((value % 0x80 + 0x80) as u8);
        let ghost pushed = out@;
        write_varint(out, value / 0x80);
        assert(out@ =~= old(out)@ + spec_encode_varint(value as nat)) by {
            assert(pushed =~= old(out)@ + seq![(value % 0x80 + 0x80) as u8]);
        }
    }
}

/// The number of the given wire type.
pub fn wire_type_number(wire_type: WireType) -> (number: u64)
    ensures
        number == spec_wire_type_number(wire_type),
        spec_wire_type(number as nat) == Some(wire_type),
{
    match wire_type {
        WireType::Varint => 0,
        WireType::SixtyFourBit => 1,
        WireType::LengthDelimited => 2,
        WireType::StartGroup => 3,
        WireType::EndGroup => 4,
        WireType::ThirtyTwoBit => 5,
    }
}

/// Appends the bytes that encode a field key.
pub fn write_key(out: &mut Vec<u8>, key: FieldKey)
    ensures
        final(out)@ == old(out)@ + spec_encode_key(key),
{
    let number: u64 = key.tag as u64 * 8 + wire_type_number(key.wire_type);
    write_varint(out, number);
}

fn write_little_endian(out: &mut Vec<u8>, value: u64, width: u8)
    ensures
        final(out)@ == old(out)@ + spec_encode_little_endian(value as nat, width as nat),
    decreases width,
{
    if width == 0 {
        assert(out@ =~= old(out)@ + spec_encode_little_endian(value as nat, 0));
    } else {
        out.push((value % 0x100) as u8);
        let ghost pushed = out@;
        write_little_endian(out, value / 0x100, width - 1);
        assert(out@ =~= old(out)@ + spec_encode_little_endian(value as nat, width as nat)) by {
            assert(pushed =~= old(out)@ + seq![(value % 0x100) as u8]);
        }
    }
}

/// Appends the eight bytes that spell `value`, the least significant first.
pub fn write_fixed64(out: &mut Vec<u8>, value: u64)
    ensures
        final(out)@ == old(out)@ + spec_encode_fixed64(value),
{
    write_little_endian(out, value, 8);
}

} // verus!
