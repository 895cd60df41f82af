use vstd::prelude::*;

verus! {

/// The three fields of an answer to a read-measurement command, each with the
/// checksum byte that the sensor sent after it.
#[derive(Clone, Copy, Debug, PartialEq, Eq, Structural)]
pub struct RawReading {
    pub co2: u16,
    pub crc_co2: u8,
    pub temperature: u16,
    pub crc_temperature: u8,
    pub humidity: u16,
    pub crc_humidity: u8,
}

/// The big-endian 16-bit word at `i` and `i + 1`.
pub open spec fn be_word(b: Seq<u8>, i: int) -> u16 {
    (b[i] as int * 256 + b[i + 1] as int) as u16
}

/// What a nine-byte answer holds: three (value, checksum) triplets in the order
/// CO2, temperature, humidity.
pub open spec fn parse_spec(b: Seq<u8>) -> RawReading {
    RawReading {
        co2: be_word(b, 0),
        crc_co2: b[2],
        temperature: be_word(b, 3),
        crc_temperature: b[5],
        humidity: be_word(b, 6),
        crc_humidity: b[8],
    }
}

fn be_u16(hi: u8, lo: u8) -> (r: u16)
    ensures
        r as int == hi as int * 256 + lo as int,
{
    (hi as u16) * 256 + (lo as u16)
}

/// Splits the answer to a read-measurement command into its fields.
/// Checksums are kept as they came and are not checked.
pub fn parse_response(data: &[u8; 9]) -> (r: RawReading)
    ensures
        r == parse_spec(data@),
{
    RawReading {
        co2: be_u16(data[0], data[1]),
        crc_co2: data[2],
        temperature: be_u16(data[3], data[4]),
        crc_temperature: data[5],
        humidity: be_u16(data[6], data[7]),
        crc_humidity: data[8],
    }
}

/// The sensor's CRC-8 (polynomial 0x31, most significant bit first) after
/// shifting `n` bits through the register `crc`.
pub open spec fn crc_shift(crc: u8, n: nat) -> u8
    decreases n,
{
    if n == 0 {
        crc
    } else {
        let c = crc_shift(crc, (n - 1) as nat);
        if c & 0x80 != 0 {
            (c << 1u8) ^ 0x31
        } else {
            c << 1u8
        }
    }
}

/// The register after taking in one byte.
pub open spec fn crc_byte(crc: u8, b: u8) -> u8 {
    crc_shift(crc ^ b, 8)
}

/// The checksum the sensor sends after a 16-bit word: CRC-8 of its two bytes,
/// high byte first, starting from 0xFF.
pub open spec fn word_crc(w: u16) -> u8 {
    crc_byte(crc_byte(0xFF, (w / 256) as u8), (w % 256) as u8)
}

/// Every field of the reading carries the checksum of its word.
pub open spec fn checksums_match(r: RawReading) -> bool {
    word_crc(r.co2) == r.crc_co2 && word_crc(r.temperature) == r.crc_temperature
        && word_crc(r.humidity) == r.crc_humidity
}

fn crc_update(crc: u8, b: u8) -> (r: u8)
    ensures
        r == crc_byte(crc, b),
{
    let mut c: u8 = crc ^ b;
    let mut i: u8 = 0;
    while i < 8
        invariant
            i <= 8,
            c == crc_shift(crc ^ b, i as nat),
        decreases 8 - i,
    {
        if c & 0x80 != 0 {
            c = (c << 1u8) ^ 0x31;
        } else {
            c = c << 1u8;
        }
        i = i + 1;
    }
    c
}

/// The checksum the sensor sends after the word `w`.
pub fn crc_of_word(w: u16) -> (r: u8)
    ensures
        r == word_crc(w),
{
    let hi = (w / 256) as u8;
    let lo = (w % 256) as u8;
    crc_update(crc_update(0xFF, hi), lo)
}

/// Whether each field of the reading carries the checksum of its word.
pub fn checksums_valid(r: &RawReading) -> (ok: bool)
    ensures
        ok == checksums_match(*r),
{
    crc_of_word(r.co2) == r.crc_co2 && crc_of_word(r.temperature) == r.crc_temperature
        && crc_of_word(r.humidity) == r.crc_humidity
}

/// Calibration offset of the `SCD41` driver, in thousandths of a degree.
pub const SCD41_TEMPERATURE_OFFSET_MILLI: u16 = 45000;

/// Calibration offset of the `SDC41` driver, in thousandths of a degree.
pub const SDC41_TEMPERATURE_OFFSET_MILLI: u16 = 48300;

/// Temperature in thousandths of a degree Celsius, rounded down:
/// `raw * 175 / 65536 - offset` scaled by 1000.
pub open spec fn temperature_milli_spec(raw: int, offset_milli: int) -> int {
    raw * 175000 / 65536 - offset_milli
}

/// Relative humidity in thousandths of a percent, rounded down:
/// `raw * 100 / 65536` scaled by 1000.
pub open spec fn humidity_milli_spec(raw: int) -> int {
    raw * 100000 / 65536
}

/// Converts a raw temperature word into thousandths of a degree Celsius.
pub fn temperature_milli_c(raw: u16, offset_milli: u16) -> (r: i32)
    ensures
        r as int == temperature_milli_spec(raw as int, offset_milli as int),
{
    assert(raw as int * 175000 <= 65535 * 175000) by (nonlinear_arith);
    assert(raw as int * 175000 / 65536 <= 175000) by (nonlinear_arith)
        requires raw as int * 175000 <= 65535 * 175000;
    let scaled: u64 = (raw as u64) * 175000 / 65536;
    (scaled as i32) - (offset_milli as i32)
}

/// Converts a raw humidity word into thousandths of a percent.
pub fn humidity_milli_pct(raw: u16) -> (r: u32)
    ensures
        r as int == humidity_milli_spec(raw as int),
        r < 100000,
{
    proof { lemma_humidity_range(raw); }
    ((raw as u64) * 100000 / 65536) as u32
}

/// The temperature conversion is increasing: a larger raw word never gives a
/// lower temperature, in exact terms (`raw * 175 - offset * 65536`, the value
/// times 65536) and in thousandths of a degree.
pub proof fn lemma_temperature_monotonic(a: u16, b: u16, offset_milli: u16)
    requires
        a <= b,
    ensures
        a as int * 175 <= b as int * 175,
        temperature_milli_spec(a as int, offset_milli as int)
            <= temperature_milli_spec(b as int, offset_milli as int),
{
    assert(a as int * 175000 <= b as int * 175000) by (nonlinear_arith)
        requires a <= b;
    vstd::arithmetic::div_mod::lemma_div_is_ordered(a as int * 175000, b as int * 175000, 65536);
}

/// Humidity lies in [0, 100) percent for every raw word, in exact terms
/// (`raw * 100`, the value times 65536) and in thousandths of a percent.
pub proof fn lemma_humidity_range(raw: u16)
    ensures
        0 <= raw as int * 100 < 100 * 65536,
        0 <= humidity_milli_spec(raw as int) < 100000,
{
    assert(0 <= raw as int * 100000 <= 65535 * 100000) by (nonlinear_arith)
        requires raw <= 65535;
    vstd::arithmetic::div_mod::lemma_div_is_ordered(raw as int * 100000, 65535int * 100000, 65536);
    assert(65535 * 100000 / 65536 == 99998) by (nonlinear_arith);
    vstd::arithmetic::div_mod::lemma_div_pos_is_pos(raw as int * 100000, 65536);
}

/// Humidity never decreases as the raw word grows.
pub proof fn lemma_humidity_monotonic(a: u16, b: u16)
    requires
        a <= b,
    ensures
        a as int * 100 <= b as int * 100,
        humidity_milli_spec(a as int) <= humidity_milli_spec(b as int),
{
    assert(a as int * 100000 <= b as int * 100000) by (nonlinear_arith)
        requires a <= b;
    vstd::arithmetic::div_mod::lemma_div_is_ordered(a as int * 100000, b as int * 100000, 65536);
}

} // verus!
