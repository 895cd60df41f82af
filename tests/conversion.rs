use scd41_embassy_rs::conversion::{
    checksums_valid, crc_of_word, humidity_milli_pct, parse_response, temperature_milli_c, RawReading,
    SCD41_TEMPERATURE_OFFSET_MILLI, SDC41_TEMPERATURE_OFFSET_MILLI,
};

const SAMPLE: [u8; 9] = [0x01, 0xF4, 0x00, 0x66, 0x66, 0x00, 0x80, 0x00, 0x00];

#[test]
fn parse_sample_response() {
    let raw = parse_response(&SAMPLE);
    assert_eq!(
        raw,
        RawReading {
            co2: 500,
            crc_co2: 0,
            temperature: 0x6666,
            crc_temperature: 0,
            humidity: 0x8000,
            crc_humidity: 0,
        }
    );
}

#[test]
fn parse_keeps_checksums() {
    let raw = parse_response(&[0x12, 0x34, 0xAA, 0x56, 0x78, 0xBB, 0x9A, 0xBC, 0xCC]);
    assert_eq!(raw.co2, 0x1234);
    assert_eq!(raw.crc_co2, 0xAA);
    assert_eq!(raw.temperature, 0x5678);
    assert_eq!(raw.crc_temperature, 0xBB);
    assert_eq!(raw.humidity, 0x9ABC);
    assert_eq!(raw.crc_humidity, 0xCC);
}

#[test]
fn sample_response_converts() {
    let raw = parse_response(&SAMPLE);
    // 26214 * 175 / 65536 - 45 = 24.9989...
    assert_eq!(temperature_milli_c(raw.temperature, SCD41_TEMPERATURE_OFFSET_MILLI), 24998);
    assert_eq!(humidity_milli_pct(raw.humidity), 50000);
}

#[test]
fn temperature_edges() {
    assert_eq!(temperature_milli_c(0, SCD41_TEMPERATURE_OFFSET_MILLI), -45000);
    assert_eq!(temperature_milli_c(65535, SCD41_TEMPERATURE_OFFSET_MILLI), 129997);
    assert_eq!(temperature_milli_c(0, SDC41_TEMPERATURE_OFFSET_MILLI), -48300);
    assert_eq!(temperature_milli_c(0x6666, SDC41_TEMPERATURE_OFFSET_MILLI), 21698);
}

#[test]
fn temperature_never_decreases() {
    let mut prev = temperature_milli_c(0, SCD41_TEMPERATURE_OFFSET_MILLI);
    let mut raw: u32 = 1;
    while raw <= 65535 {
        let t = temperature_milli_c(raw as u16, SCD41_TEMPERATURE_OFFSET_MILLI);
        assert!(t >= prev);
        prev = t;
        raw += 1;
    }
}

#[test]
fn humidity_stays_below_hundred_and_never_decreases() {
    assert_eq!(humidity_milli_pct(0), 0);
    assert_eq!(humidity_milli_pct(65535), 99998);
    let mut prev = humidity_milli_pct(0);
    let mut raw: u32 = 1;
    while raw <= 65535 {
        let h = humidity_milli_pct(raw as u16);
        assert!(h >= prev);
        assert!(h < 100000);
        prev = h;
        raw += 1;
    }
}

#[test]
fn checksum_of_datasheet_word() {
    assert_eq!(crc_of_word(0xBEEF), 0x92);
    assert_eq!(crc_of_word(500), 0x33);
}

#[test]
fn checksums_checked_per_field() {
    let good = parse_response(&[0x01, 0xF4, 0x33, 0x66, 0x66, 0x93, 0x80, 0x00, 0xA2]);
    assert!(checksums_valid(&good));
    let bad = parse_response(&[0x01, 0xF4, 0x33, 0x66, 0x66, 0x93, 0x80, 0x00, 0xA3]);
    assert!(!checksums_valid(&bad));
    assert!(!checksums_valid(&parse_response(&SAMPLE)));
}
