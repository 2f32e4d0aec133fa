use prost::encoding::{decode_key, decode_varint, skip_field, DecodeContext, WireType as Wire};
use signalstashrs::sensor::{Domain, SensorData};
use signalstashrs::sensor::uint64_from_int64;
use signalstashrs::wire::{
    read_fixed64, read_key, read_length_delimited, read_varint, skip_field as skip, wire_type_from,
    wire_type_number, write_fixed64, write_key, write_varint, DecodeError, FieldKey, WireType,
    RECURSION_LIMIT,
};

/// A reading as the reference decoder sees it.
#[derive(Debug, Default, PartialEq)]
struct Reference {
    timestamp: i64,
    datum: f64,
    domain: i32,
    device_id: Vec<u8>,
}

/// Decodes as a message type with these four fields decodes.
fn reference_decode(bytes: &[u8]) -> Result<Reference, prost::DecodeError> {
    let mut buf = bytes;
    let mut message = Reference::default();
    let ctx = DecodeContext::default();
    while !buf.is_empty() {
        let (tag, wire_type) = decode_key(&mut buf)?;
        match tag {
            1 => prost::encoding::int64::merge(wire_type, &mut message.timestamp, &mut buf, ctx.clone())?,
            2 => prost::encoding::double::merge(wire_type, &mut message.datum, &mut buf, ctx.clone())?,
            3 => prost::encoding::int32::merge(wire_type, &mut message.domain, &mut buf, ctx.clone())?,
            4 => prost::encoding::bytes::merge(wire_type, &mut message.device_id, &mut buf, ctx.clone())?,
            _ => skip_field(wire_type, tag, &mut buf, ctx.clone())?,
        }
    }
    Ok(message)
}

fn reference_encode(timestamp: i64, datum: f64, domain: i32, device_id: &[u8]) -> Vec<u8> {
    let mut buf = Vec::new();
    prost::encoding::int64::encode(1, &timestamp, &mut buf);
    prost::encoding::double::encode(2, &datum, &mut buf);
    prost::encoding::int32::encode(3, &domain, &mut buf);
    prost::encoding::bytes::encode(4, &device_id.to_vec(), &mut buf);
    buf
}

/// Holds the library's decoder against the reference on one input.
fn assert_same(bytes: &[u8]) {
    let ours = SensorData::decode(bytes);
    let theirs = reference_decode(bytes);
    match (ours, theirs) {
        (Ok(ours), Ok(theirs)) => {
            assert_eq!(ours.timestamp, theirs.timestamp, "timestamp of {:?}", bytes);
            assert_eq!(ours.datum_bits, theirs.datum.to_bits(), "datum of {:?}", bytes);
            assert_eq!(ours.domain, theirs.domain, "domain of {:?}", bytes);
            assert_eq!(ours.device_id, theirs.device_id, "device id of {:?}", bytes);
        }
        (Err(ours), Err(theirs)) => {
            let text = theirs.to_string();
            assert!(
                text.contains(ours.description()),
                "{:?}: {:?} against {}",
                bytes,
                ours,
                text
            );
        }
        (ours, theirs) => panic!("{:?}: {:?} against {:?}", bytes, ours, theirs),
    }
}

struct Lcg(u64);

impl Lcg {
    fn next(&mut self) -> u64 {
        self.0 = self.0.wrapping_mul(6364136223846793005).wrapping_add(1442695040888963407);
        self.0 >> 33
    }

    fn below(&mut self, bound: u64) -> u64 {
        self.next() % bound
    }
}

#[test]
fn varint_of_one_byte() {
    assert_eq!(read_varint(&[0x00], 0), Ok((0, 1)));
    assert_eq!(read_varint(&[0x7f], 0), Ok((127, 1)));
    assert_eq!(read_varint(&[0x01, 0xff], 0), Ok((1, 1)));
}

#[test]
fn varint_of_several_bytes() {
    assert_eq!(read_varint(&[0x80, 0x01], 0), Ok((128, 2)));
    assert_eq!(read_varint(&[0xac, 0x02], 0), Ok((300, 2)));
    assert_eq!(read_varint(&[0x96, 0x01], 0), Ok((150, 2)));
    // 1723839123 = 0x66BFB293
    assert_eq!(read_varint(&[0x93, 0xe5, 0xfe, 0xb5, 0x06], 0), Ok((1723839123, 5)));
}

#[test]
fn varint_starts_at_the_given_position() {
    let bytes = [0xff, 0xff, 0xac, 0x02, 0x05];
    assert_eq!(read_varint(&bytes, 2), Ok((300, 4)));
    assert_eq!(read_varint(&bytes, 4), Ok((5, 5)));
    assert_eq!(read_varint(&bytes, 5), Err(DecodeError::InvalidVarint));
}

#[test]
fn varint_of_ten_bytes_holds_the_largest_value() {
    let max = [0xff, 0xff, 0xff, 0xff, 0xff, 0xff, 0xff, 0xff, 0xff, 0x01];
    assert_eq!(read_varint(&max, 0), Ok((u64::MAX, 10)));
    let high_bit = [0x80, 0x80, 0x80, 0x80, 0x80, 0x80, 0x80, 0x80, 0x80, 0x01];
    assert_eq!(read_varint(&high_bit, 0), Ok((1 << 63, 10)));
    let padded_zero = [0x80, 0x80, 0x80, 0x80, 0x80, 0x80, 0x80, 0x80, 0x80, 0x00];
    assert_eq!(read_varint(&padded_zero, 0), Ok((0, 10)));
}

#[test]
fn varint_that_is_not_one() {
    assert_eq!(read_varint(&[], 0), Err(DecodeError::InvalidVarint));
    assert_eq!(read_varint(&[0x80], 0), Err(DecodeError::InvalidVarint));
    assert_eq!(read_varint(&[0xff, 0xff, 0xff], 0), Err(DecodeError::InvalidVarint));
    // the tenth byte carries more than one bit
    let overflow = [0xff, 0xff, 0xff, 0xff, 0xff, 0xff, 0xff, 0xff, 0xff, 0x02];
    assert_eq!(read_varint(&overflow, 0), Err(DecodeError::InvalidVarint));
    // an eleventh byte would be needed
    let too_long = [0x80, 0x80, 0x80, 0x80, 0x80, 0x80, 0x80, 0x80, 0x80, 0x80, 0x01];
    assert_eq!(read_varint(&too_long, 0), Err(DecodeError::InvalidVarint));
}

#[test]
fn varint_agrees_with_the_reference() {
    let mut rng = Lcg(7);
    for _ in 0..20000 {
        let len = rng.below(13) as usize;
        let mut bytes = Vec::with_capacity(len);
        for _ in 0..len {
            // continuation bytes are made likely so that long varints occur
            let byte = if rng.below(4) == 0 { rng.below(128) } else { 128 + rng.below(128) };
            bytes.push(byte as u8);
        }
        let mut buf = &bytes[..];
        let theirs = decode_varint(&mut buf);
        match (read_varint(&bytes, 0), theirs) {
            (Ok((value, end)), Ok(expected)) => {
                assert_eq!(value, expected, "{:?}", bytes);
                assert_eq!(end, bytes.len() - buf.len(), "{:?}", bytes);
            }
            (Err(e), Err(_)) => assert_eq!(e, DecodeError::InvalidVarint),
            (ours, theirs) => panic!("{:?}: {:?} against {:?}", bytes, ours, theirs),
        }
    }
}

#[test]
fn wire_type_numbers() {
    assert_eq!(wire_type_from(0), Some(WireType::Varint));
    assert_eq!(wire_type_from(1), Some(WireType::SixtyFourBit));
    assert_eq!(wire_type_from(2), Some(WireType::LengthDelimited));
    assert_eq!(wire_type_from(3), Some(WireType::StartGroup));
    assert_eq!(wire_type_from(4), Some(WireType::EndGroup));
    assert_eq!(wire_type_from(5), Some(WireType::ThirtyTwoBit));
    assert_eq!(wire_type_from(6), None);
    assert_eq!(wire_type_from(7), None);
    assert_eq!(wire_type_from(8), None);
}

#[test]
fn key_holds_tag_and_wire_type() {
    assert_eq!(
        read_key(&[0x08], 0),
        Ok((FieldKey { tag: 1, wire_type: WireType::Varint }, 1))
    );
    assert_eq!(
        read_key(&[0x11], 0),
        Ok((FieldKey { tag: 2, wire_type: WireType::SixtyFourBit }, 1))
    );
    assert_eq!(
        read_key(&[0x22], 0),
        Ok((FieldKey { tag: 4, wire_type: WireType::LengthDelimited }, 1))
    );
    // tag 16 needs two bytes
    assert_eq!(
        read_key(&[0x85, 0x01], 0),
        Ok((FieldKey { tag: 16, wire_type: WireType::ThirtyTwoBit }, 2))
    );
    // the largest key: 2^32 - 1 with wire type 5
    assert_eq!(
        read_key(&[0xfd, 0xff, 0xff, 0xff, 0x0f], 0),
        Ok((FieldKey { tag: (1 << 29) - 1, wire_type: WireType::ThirtyTwoBit }, 5))
    );
}

#[test]
fn key_that_is_not_one() {
    assert_eq!(read_key(&[], 0), Err(DecodeError::InvalidVarint));
    assert_eq!(read_key(&[0x80], 0), Err(DecodeError::InvalidVarint));
    // 2^32
    assert_eq!(read_key(&[0x80, 0x80, 0x80, 0x80, 0x10], 0), Err(DecodeError::InvalidKey));
    assert_eq!(read_key(&[0x0e], 0), Err(DecodeError::InvalidWireType));
    assert_eq!(read_key(&[0x0f], 0), Err(DecodeError::InvalidWireType));
    assert_eq!(read_key(&[0x00], 0), Err(DecodeError::InvalidTag));
    assert_eq!(read_key(&[0x05], 0), Err(DecodeError::InvalidTag));
    // a key beyond 32 bits is refused before its wire type is looked at
    assert_eq!(read_key(&[0x87, 0x80, 0x80, 0x80, 0x10], 0), Err(DecodeError::InvalidKey));
}

#[test]
fn key_agrees_with_the_reference() {
    let mut rng = Lcg(11);
    for _ in 0..20000 {
        let len = rng.below(7) as usize;
        let mut bytes = Vec::with_capacity(len);
        for i in 0..len {
            let byte = if i + 1 == len || rng.below(3) == 0 {
                rng.below(128)
            } else {
                128 + rng.below(128)
            };
            bytes.push(byte as u8);
        }
        let mut buf = &bytes[..];
        match (read_key(&bytes, 0), decode_key(&mut buf)) {
            (Ok((key, end)), Ok((tag, wire_type))) => {
                assert_eq!(key.tag, tag, "{:?}", bytes);
                assert_eq!(format!("{:?}", key.wire_type), format!("{:?}", wire_type));
                assert_eq!(end, bytes.len() - buf.len());
            }
            (Err(e), Err(theirs)) => {
                assert!(theirs.to_string().contains(e.description()), "{:?}: {:?} against {}", bytes, e, theirs)
            }
            (ours, theirs) => panic!("{:?}: {:?} against {:?}", bytes, ours, theirs),
        }
    }
}

#[test]
fn fixed64_is_little_endian() {
    let bytes = [0x01, 0x02, 0x03, 0x04, 0x05, 0x06, 0x07, 0x08, 0x09];
    assert_eq!(read_fixed64(&bytes, 0), Ok((0x0807060504030201, 8)));
    assert_eq!(read_fixed64(&bytes, 1), Ok((0x0908070605040302, 9)));
    assert_eq!(read_fixed64(&bytes, 2), Err(DecodeError::BufferUnderflow));
    assert_eq!(read_fixed64(&[0xff; 8], 0), Ok((u64::MAX, 8)));
    assert_eq!(read_fixed64(&[], 0), Err(DecodeError::BufferUnderflow));
    // 42.5 as a double
    assert_eq!(
        read_fixed64(&42.5f64.to_le_bytes(), 0),
        Ok((0x4045400000000000, 8))
    );
}

#[test]
fn length_delimited_gives_the_payload_range() {
    let bytes = [0x03, b'a', b'b', b'c', 0x00];
    assert_eq!(read_length_delimited(&bytes, 0), Ok((1, 4)));
    assert_eq!(read_length_delimited(&bytes, 4), Ok((5, 5)));
    assert_eq!(read_length_delimited(&[0x04, b'a', b'b', b'c'], 0), Err(DecodeError::BufferUnderflow));
    assert_eq!(read_length_delimited(&[], 0), Err(DecodeError::InvalidVarint));
    // a length that no buffer has
    let huge = [0xff, 0xff, 0xff, 0xff, 0xff, 0xff, 0xff, 0xff, 0xff, 0x01];
    assert_eq!(read_length_delimited(&huge, 0), Err(DecodeError::BufferUnderflow));
}

#[test]
fn skip_passes_over_each_wire_type() {
    let key = |tag, wire_type| FieldKey { tag, wire_type };
    assert_eq!(skip(&[0xac, 0x02, 0x00], 0, key(9, WireType::Varint), RECURSION_LIMIT), Ok(2));
    assert_eq!(skip(&[0; 5], 1, key(9, WireType::ThirtyTwoBit), RECURSION_LIMIT), Ok(5));
    assert_eq!(skip(&[0; 5], 2, key(9, WireType::ThirtyTwoBit), RECURSION_LIMIT), Err(DecodeError::BufferUnderflow));
    assert_eq!(skip(&[0; 8], 0, key(9, WireType::SixtyFourBit), RECURSION_LIMIT), Ok(8));
    assert_eq!(skip(&[0; 7], 0, key(9, WireType::SixtyFourBit), RECURSION_LIMIT), Err(DecodeError::BufferUnderflow));
    assert_eq!(skip(&[0x02, 1, 2, 3], 0, key(9, WireType::LengthDelimited), RECURSION_LIMIT), Ok(3));
    assert_eq!(skip(&[0x05, 1, 2, 3], 0, key(9, WireType::LengthDelimited), RECURSION_LIMIT), Err(DecodeError::BufferUnderflow));
    assert_eq!(skip(&[], 0, key(9, WireType::EndGroup), RECURSION_LIMIT), Err(DecodeError::UnexpectedEndGroup));
}

#[test]
fn skip_passes_over_groups() {
    let key = |tag, wire_type| FieldKey { tag, wire_type };
    // group 9 { varint 1 = 5 } end 9 : end key is (9 << 3) | 4 = 0x4c
    assert_eq!(skip(&[0x08, 0x05, 0x4c, 0xff], 0, key(9, WireType::StartGroup), RECURSION_LIMIT), Ok(3));
    // an empty group
    assert_eq!(skip(&[0x4c], 0, key(9, WireType::StartGroup), RECURSION_LIMIT), Ok(1));
    // closed by another group's end
    assert_eq!(skip(&[0x54], 0, key(9, WireType::StartGroup), RECURSION_LIMIT), Err(DecodeError::UnexpectedEndGroup));
    // never closed
    assert_eq!(skip(&[0x08, 0x05], 0, key(9, WireType::StartGroup), RECURSION_LIMIT), Err(DecodeError::InvalidVarint));
    // group 9 { group 2 { } } : start 2 = 0x13, end 2 = 0x14
    assert_eq!(skip(&[0x13, 0x14, 0x4c], 0, key(9, WireType::StartGroup), RECURSION_LIMIT), Ok(3));
}

#[test]
fn skip_stops_at_the_nesting_limit() {
    let key = FieldKey { tag: 2, wire_type: WireType::StartGroup };
    assert_eq!(skip(&[0x14], 0, key, 0), Err(DecodeError::RecursionLimit));
    assert_eq!(skip(&[0x14], 0, key, 1), Ok(1));
    assert_eq!(skip(&[0x13, 0x14, 0x14], 0, key, 1), Err(DecodeError::RecursionLimit));
    assert_eq!(skip(&[0x13, 0x14, 0x14], 0, key, 2), Ok(3));
    // 99 groups inside the outer one are within the limit, 100 are not
    for (inner, ok) in [(99usize, true), (100usize, false)] {
        let mut bytes = vec![0x13u8; inner];
        bytes.extend(std::iter::repeat(0x14u8).take(inner + 1));
        let ours = skip(&bytes, 0, key, RECURSION_LIMIT);
        let mut buf = &bytes[..];
        let theirs = skip_field(Wire::StartGroup, 2, &mut buf, DecodeContext::default());
        assert_eq!(ours.is_ok(), ok);
        assert_eq!(theirs.is_ok(), ok);
        if !ok {
            assert_eq!(ours, Err(DecodeError::RecursionLimit));
        } else {
            assert_eq!(ours, Ok(bytes.len()));
        }
    }
}

#[test]
fn decode_of_nothing_gives_the_defaults() {
    let reading = SensorData::decode(&[]).unwrap();
    assert_eq!(reading, SensorData::new());
    assert_eq!(reading.timestamp, 0);
    assert_eq!(reading.datum_bits, 0);
    assert_eq!(reading.domain, 0);
    assert!(reading.device_id.is_empty());
}

#[test]
fn decode_of_the_sample_reading() {
    let bytes = reference_encode(1723839123, 42.5, 1, b"testdevice");
    assert_eq!(
        bytes,
        [
            0x08, 0x93, 0xe5, 0xfe, 0xb5, 0x06, // timestamp
            0x11, 0x00, 0x00, 0x00, 0x00, 0x00, 0x40, 0x45, 0x40, // datum
            0x18, 0x01, // domain
            0x22, 0x0a, b't', b'e', b's', b't', b'd', b'e', b'v', b'i', b'c', b'e',
        ]
    );
    let reading = SensorData::decode(&bytes).unwrap();
    assert_eq!(reading.timestamp, 1723839123);
    assert_eq!(f64::from_bits(reading.datum_bits), 42.5);
    assert_eq!(reading.domain, 1);
    assert_eq!(reading.device_id, b"testdevice");
    assert_same(&bytes);
}

#[test]
fn decode_reads_negative_numbers() {
    let bytes = reference_encode(-1, -0.0, -2, b"");
    let reading = SensorData::decode(&bytes).unwrap();
    assert_eq!(reading.timestamp, -1);
    assert_eq!(reading.datum_bits, 0x8000_0000_0000_0000);
    assert_eq!(reading.domain, -2);
    let bytes = reference_encode(i64::MIN, f64::NAN, i32::MIN, b"x");
    let reading = SensorData::decode(&bytes).unwrap();
    assert_eq!(reading.timestamp, i64::MIN);
    assert_eq!(reading.datum_bits, f64::NAN.to_bits());
    assert_eq!(reading.domain, i32::MIN);
    let bytes = reference_encode(i64::MAX, f64::INFINITY, i32::MAX, b"x");
    let reading = SensorData::decode(&bytes).unwrap();
    assert_eq!(reading.timestamp, i64::MAX);
    assert_eq!(reading.domain, i32::MAX);
}

#[test]
fn decode_keeps_the_low_bits_of_a_wide_domain() {
    // domain = 2^32 + 7 on the wire
    let bytes = [0x18, 0x87, 0x80, 0x80, 0x80, 0x10];
    assert_eq!(SensorData::decode(&bytes).unwrap().domain, 7);
    // domain = 2^32 - 1 on the wire is -1
    let bytes = [0x18, 0xff, 0xff, 0xff, 0xff, 0x0f];
    assert_eq!(SensorData::decode(&bytes).unwrap().domain, -1);
    assert_same(&bytes);
}

#[test]
fn decode_takes_the_last_of_a_repeated_field() {
    let mut bytes = reference_encode(5, 1.0, 1, b"first");
    bytes.extend(reference_encode(6, 2.0, 0, b"second"));
    let reading = SensorData::decode(&bytes).unwrap();
    assert_eq!(reading.timestamp, 6);
    assert_eq!(f64::from_bits(reading.datum_bits), 2.0);
    assert_eq!(reading.domain, 0);
    assert_eq!(reading.device_id, b"second");
}

#[test]
fn decode_takes_fields_in_any_order() {
    let mut bytes = Vec::new();
    prost::encoding::bytes::encode(4, &b"dev".to_vec(), &mut bytes);
    prost::encoding::int32::encode(3, &1, &mut bytes);
    prost::encoding::int64::encode(1, &9, &mut bytes);
    let reading = SensorData::decode(&bytes).unwrap();
    assert_eq!(reading.timestamp, 9);
    assert_eq!(reading.datum_bits, 0);
    assert_eq!(reading.domain, 1);
    assert_eq!(reading.device_id, b"dev");
}

#[test]
fn decode_skips_fields_it_does_not_know() {
    let mut bytes = Vec::new();
    prost::encoding::string::encode(7, &"ignored".to_string(), &mut bytes);
    prost::encoding::int64::encode(1, &3, &mut bytes);
    prost::encoding::fixed32::encode(200, &77, &mut bytes);
    prost::encoding::uint64::encode(5, &u64::MAX, &mut bytes);
    prost::encoding::bytes::encode(4, &b"dev".to_vec(), &mut bytes);
    prost::encoding::sfixed64::encode(6, &-1, &mut bytes);
    let reading = SensorData::decode(&bytes).unwrap();
    assert_eq!(reading.timestamp, 3);
    assert_eq!(reading.device_id, b"dev");
    assert_same(&bytes);
}

#[test]
fn decode_refuses_what_is_malformed() {
    // a known field with another wire type
    assert_eq!(SensorData::decode(&[0x0a, 0x00]), Err(DecodeError::WireTypeMismatch));
    assert_eq!(SensorData::decode(&[0x10, 0x00]), Err(DecodeError::WireTypeMismatch));
    assert_eq!(SensorData::decode(&[0x1d, 0, 0, 0, 0]), Err(DecodeError::WireTypeMismatch));
    assert_eq!(SensorData::decode(&[0x20, 0x00]), Err(DecodeError::WireTypeMismatch));
    // values cut short
    assert_eq!(SensorData::decode(&[0x08]), Err(DecodeError::InvalidVarint));
    assert_eq!(SensorData::decode(&[0x11, 1, 2, 3]), Err(DecodeError::BufferUnderflow));
    assert_eq!(SensorData::decode(&[0x22, 0x05, b'a']), Err(DecodeError::BufferUnderflow));
    // keys that are none
    assert_eq!(SensorData::decode(&[0x00]), Err(DecodeError::InvalidTag));
    assert_eq!(SensorData::decode(&[0x0f]), Err(DecodeError::InvalidWireType));
    assert_eq!(SensorData::decode(&[0xff]), Err(DecodeError::InvalidVarint));
    // a group end at the top
    assert_eq!(SensorData::decode(&[0x4c]), Err(DecodeError::UnexpectedEndGroup));
    // text is no reading
    assert!(SensorData::decode(b"not a protobuf message").is_err());
    for bytes in [
        &[0x0a, 0x00][..],
        &[0x08],
        &[0x11, 1, 2, 3],
        &[0x22, 0x05, b'a'],
        &[0x00],
        &[0x0f],
        &[0xff],
        &[0x4c],
        b"not a protobuf message",
    ] {
        assert_same(bytes);
    }
}

#[test]
fn decode_agrees_with_the_reference_on_arbitrary_bytes() {
    let mut rng = Lcg(2024);
    for _ in 0..30000 {
        let len = rng.below(24) as usize;
        let bytes: Vec<u8> = (0..len)
            .map(|_| match rng.below(6) {
                0 => rng.below(256) as u8,
                1 => 0x08,
                2 => 0x11,
                3 => 0x18,
                4 => 0x22,
                _ => rng.below(16) as u8,
            })
            .collect();
        assert_same(&bytes);
    }
}

#[test]
fn decode_agrees_with_the_reference_on_damaged_readings() {
    let mut rng = Lcg(99);
    for round in 0..20000u64 {
        let device: Vec<u8> = (0..rng.below(12)).map(|_| rng.below(256) as u8).collect();
        let mut bytes = reference_encode(
            rng.next() as i64 - (1 << 30),
            f64::from_bits(rng.next() << 20),
            rng.below(5) as i32 - 1,
            &device,
        );
        if rng.below(3) == 0 {
            // an unknown group in front
            let mut with_group = vec![0x4b, 0x08, 0x01, 0x4c];
            with_group.extend(bytes);
            bytes = with_group;
        }
        match round % 4 {
            0 => {}
            1 => {
                let cut = rng.below(bytes.len() as u64 + 1) as usize;
                bytes.truncate(cut);
            }
            2 => {
                if !bytes.is_empty() {
                    let at = rng.below(bytes.len() as u64) as usize;
                    bytes[at] = rng.below(256) as u8;
                }
            }
            _ => {
                let at = rng.below(bytes.len() as u64 + 1) as usize;
                bytes.insert(at, rng.below(256) as u8);
            }
        }
        assert_same(&bytes);
    }
}

#[test]
fn decode_error_descriptions() {
    assert_eq!(DecodeError::InvalidVarint.description(), "invalid varint");
    assert_eq!(DecodeError::InvalidKey.description(), "invalid key value");
    assert_eq!(DecodeError::InvalidWireType.description(), "invalid wire type value");
    assert_eq!(DecodeError::InvalidTag.description(), "invalid tag value: 0");
    assert_eq!(DecodeError::WireTypeMismatch.description(), "invalid wire type");
    assert_eq!(DecodeError::BufferUnderflow.description(), "buffer underflow");
    assert_eq!(DecodeError::UnexpectedEndGroup.description(), "unexpected end group tag");
    assert_eq!(DecodeError::RecursionLimit.description(), "recursion limit reached");
}

#[test]
fn domain_codes_and_names() {
    assert_eq!(Domain::from_i32(0), Some(Domain::Unspecified));
    assert_eq!(Domain::from_i32(1), Some(Domain::SoundPressureLevel));
    assert_eq!(Domain::from_i32(2), None);
    assert_eq!(Domain::from_i32(-1), None);
    assert_eq!(Domain::from_i32(99), None);
    assert_eq!(Domain::Unspecified.code(), 0);
    assert_eq!(Domain::SoundPressureLevel.code(), 1);
    assert_eq!(Domain::Unspecified.as_str_name(), "unspecified");
    assert_eq!(Domain::SoundPressureLevel.as_str_name(), "sound-pressure-level");
}

#[test]
fn written_varint_is_what_the_reference_writes() {
    let mut rng = Lcg(5);
    let mut values = vec![0u64, 1, 127, 128, 300, 16383, 16384, u32::MAX as u64, 1 << 63, u64::MAX];
    for _ in 0..2000 {
        values.push(rng.next() << rng.below(34));
    }
    for value in values {
        let mut ours = vec![0xaa];
        write_varint(&mut ours, value);
        let mut theirs = vec![0xaa];
        prost::encoding::encode_varint(value, &mut theirs);
        assert_eq!(ours, theirs, "{}", value);
        assert_eq!(read_varint(&ours, 1), Ok((value, ours.len())));
    }
    let mut out = Vec::new();
    write_varint(&mut out, 300);
    assert_eq!(out, [0xac, 0x02]);
}

#[test]
fn written_key_and_fixed64() {
    let mut out = Vec::new();
    write_key(&mut out, FieldKey { tag: 1, wire_type: WireType::Varint });
    write_key(&mut out, FieldKey { tag: 2, wire_type: WireType::SixtyFourBit });
    write_key(&mut out, FieldKey { tag: 4, wire_type: WireType::LengthDelimited });
    write_key(&mut out, FieldKey { tag: 16, wire_type: WireType::ThirtyTwoBit });
    assert_eq!(out, [0x08, 0x11, 0x22, 0x85, 0x01]);
    let mut out = vec![7];
    write_fixed64(&mut out, 0x0807060504030201);
    assert_eq!(out, [7, 1, 2, 3, 4, 5, 6, 7, 8]);
    assert_eq!(read_fixed64(&out, 1), Ok((0x0807060504030201, 9)));
    for (wire_type, number) in [
        (WireType::Varint, 0),
        (WireType::SixtyFourBit, 1),
        (WireType::LengthDelimited, 2),
        (WireType::StartGroup, 3),
        (WireType::EndGroup, 4),
        (WireType::ThirtyTwoBit, 5),
    ] {
        assert_eq!(wire_type_number(wire_type), number);
        assert_eq!(wire_type_from(number), Some(wire_type));
    }
}

#[test]
fn signed_numbers_keep_their_bits() {
    assert_eq!(uint64_from_int64(0), 0);
    assert_eq!(uint64_from_int64(5), 5);
    assert_eq!(uint64_from_int64(-1), u64::MAX);
    assert_eq!(uint64_from_int64(i64::MIN), 1 << 63);
    assert_eq!(uint64_from_int64(i64::MAX), (1 << 63) - 1);
}

#[test]
fn encoded_sample_reading_is_what_the_reference_writes() {
    let reading = SensorData {
        timestamp: 1723839123,
        datum_bits: 42.5f64.to_bits(),
        domain: 1,
        device_id: b"testdevice".to_vec(),
    };
    let bytes = reading.encode();
    assert_eq!(bytes, reference_encode(1723839123, 42.5, 1, b"testdevice"));
    assert_eq!(bytes.len(), 29);
    assert_eq!(SensorData::decode(&bytes), Ok(reading));
}

#[test]
fn encoding_leaves_out_fields_at_their_default() {
    assert_eq!(SensorData::new().encode(), Vec::<u8>::new());
    let only_domain = SensorData { timestamp: 0, datum_bits: 0, domain: 1, device_id: vec![] };
    assert_eq!(only_domain.encode(), [0x18, 0x01]);
    let only_device = SensorData { timestamp: 0, datum_bits: 0, domain: 0, device_id: vec![b'x'] };
    assert_eq!(only_device.encode(), [0x22, 0x01, b'x']);
    // negative zero is no default: its bits are kept
    let negative_zero =
        SensorData { timestamp: 0, datum_bits: (-0.0f64).to_bits(), domain: 0, device_id: vec![] };
    assert_eq!(negative_zero.encode(), [0x11, 0, 0, 0, 0, 0, 0, 0, 0x80]);
    assert_eq!(SensorData::decode(&negative_zero.encode()), Ok(negative_zero));
}

#[test]
fn decoding_inverts_encoding() {
    let mut rng = Lcg(31);
    for _ in 0..20000 {
        let reading = SensorData {
            timestamp: match rng.below(4) {
                0 => 0,
                1 => (rng.next() as i64) - (1 << 30),
                2 => i64::MIN + rng.below(3) as i64,
                _ => ((rng.next() << 31) | rng.next()) as i64,
            },
            datum_bits: match rng.below(3) {
                0 => 0,
                _ => (rng.next() << 33) ^ rng.next(),
            },
            domain: match rng.below(4) {
                0 => 0,
                1 => rng.below(3) as i32,
                2 => -(rng.below(1 << 31) as i32) - 1,
                _ => rng.below(1 << 31) as i32,
            },
            device_id: (0..rng.below(200)).map(|_| rng.below(256) as u8).collect(),
        };
        let bytes = reading.encode();
        assert_same(&bytes);
        let expected = reference_decode(&bytes).unwrap();
        assert_eq!(expected.timestamp, reading.timestamp);
        assert_eq!(expected.datum.to_bits(), reading.datum_bits);
        assert_eq!(expected.domain, reading.domain);
        assert_eq!(expected.device_id, reading.device_id);
        assert_eq!(SensorData::decode(&bytes), Ok(reading));
    }
}

#[test]
fn encoding_of_a_long_device_id() {
    let reading = SensorData { timestamp: -1, datum_bits: 1, domain: -1, device_id: vec![0xab; 70000] };
    let bytes = reading.encode();
    assert_eq!(bytes, reference_encode(-1, f64::from_bits(1), -1, &vec![0xab; 70000]));
    assert_eq!(SensorData::decode(&bytes), Ok(reading));
}
