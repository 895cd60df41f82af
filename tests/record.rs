use scd41_embassy_rs::record::{decode_record, encode_record, DecodeError, Record};

fn sample() -> Record {
    let t: f32 = 26214.0 * 175.0 / 65536.0 - 45.0;
    let h: f32 = 32768.0 * 100.0 / 65536.0;
    Record { co2: 500, temperature_bits: t.to_bits(), humidity_bits: h.to_bits() }
}

#[test]
fn record_bytes_are_varint_then_floats() {
    let bytes = encode_record(sample()).unwrap();
    assert_eq!(bytes.len(), 10);
    assert_eq!(&bytes[..2], &[0xF4, 0x03]);
    assert_eq!(&bytes[6..], &[0x00, 0x00, 0x48, 0x42]);
    let t = f32::from_bits(u32::from_le_bytes([bytes[2], bytes[3], bytes[4], bytes[5]]));
    assert!((t - 24.9989).abs() < 0.001);
}

#[test]
fn record_lengths_follow_co2() {
    let small = Record { co2: 5, temperature_bits: 0, humidity_bits: 0 };
    assert_eq!(encode_record(small).unwrap(), vec![5, 0, 0, 0, 0, 0, 0, 0, 0]);
    let large = Record { co2: 65535, temperature_bits: 0x01020304, humidity_bits: 0xA0B0C0D0 };
    assert_eq!(
        encode_record(large).unwrap(),
        vec![0xFF, 0xFF, 0x03, 0x04, 0x03, 0x02, 0x01, 0xD0, 0xC0, 0xB0, 0xA0]
    );
}

#[test]
fn record_round_trip_is_bit_exact() {
    let zero = Record { co2: 0, temperature_bits: (-45.0f32).to_bits(), humidity_bits: 0 };
    let nan = Record { co2: 16384, temperature_bits: f32::NAN.to_bits(), humidity_bits: (-0.0f32).to_bits() };
    for r in [sample(), zero, nan] {
        let bytes = encode_record(r).unwrap();
        assert_eq!(decode_record(&bytes), Ok(r));
    }
}

#[test]
fn decode_ignores_trailing_bytes() {
    let mut bytes = encode_record(sample()).unwrap();
    bytes.extend_from_slice(&[1, 2, 3]);
    assert_eq!(decode_record(&bytes), Ok(sample()));
}

#[test]
fn decode_rejects_short_input() {
    assert_eq!(decode_record(&[]), Err(DecodeError::Malformed));
    assert_eq!(decode_record(&[0xF4, 0x03, 0, 0]), Err(DecodeError::Malformed));
}
