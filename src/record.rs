use vstd::prelude::*;

verus! {

/// The wire record sent to a peer: CO2 in parts per million, then temperature
/// in degrees Celsius and relative humidity in percent, each of the two given
/// by the bit pattern of its 32-bit IEEE 754 float.
#[derive(Clone, Copy, Debug, PartialEq, Eq, Structural)]
pub struct Record {
    pub co2: u16,
    pub temperature_bits: u32,
    pub humidity_bits: u32,
}

/// Why a record could not be written.
#[derive(Clone, Copy, Debug, PartialEq, Eq, Structural)]
pub enum SerializationError {
    /// The encoder reported a failure.
    Encoder,
}

/// Why bytes could not be read as a record.
#[derive(Clone, Copy, Debug, PartialEq, Eq, Structural)]
pub enum DecodeError {
    /// The bytes end early or hold a malformed number.
    Malformed,
}

#[verifier::external_type_specification]
#[verifier::external_body]
pub struct ExPostcardError(postcard::Error);

/// A 16-bit unsigned integer as a LEB128 varint: seven bits per byte, least
/// significant first, the high bit set on every byte but the last.
pub open spec fn varint_u16_spec(v: u16) -> Seq<u8> {
    if v < 128 {
        seq![v as u8]
    } else if v < 16384 {
        seq![(v % 128 + 128) as u8, (v / 128) as u8]
    } else {
        seq![(v % 128 + 128) as u8, (v / 128 % 128 + 128) as u8, (v / 16384) as u8]
    }
}

/// The four bytes of `x`, least significant first.
pub open spec fn le_u32_spec(x: u32) -> Seq<u8> {
    seq![(x % 256) as u8, (x / 256 % 256) as u8, (x / 65536 % 256) as u8, (x / 16777216) as u8]
}

/// The bytes of a record: the CO2 value as a varint, then each float's bit
/// pattern as four little-endian bytes. No length prefix, no padding.
pub open spec fn record_spec(r: Record) -> Seq<u8> {
    varint_u16_spec(r.co2) + le_u32_spec(r.temperature_bits) + le_u32_spec(r.humidity_bits)
}

/// Relies on postcard::to_slice on a `(u16, [u8; 4], [u8; 4])`: postcard
/// writes a `u16` as a varint and each element of a byte array as the byte
/// itself, exactly as it writes a struct of a `u16` and two `f32` (an `f32` is
/// its bit pattern in little-endian order). Its slice flavor fails only when
/// the buffer is full, and a record takes at most 11 of the 16 bytes given.
#[verifier::external_body]
fn postcard_to_slice(rec: Record) -> (res: Result<Vec<u8>, postcard::Error>)
    ensures
        res is Ok && res->Ok_0@ == record_spec(rec),
{
    let mut buf = [0u8; 16];
    let value = (rec.co2, rec.temperature_bits.to_le_bytes(), rec.humidity_bits.to_le_bytes());
    postcard::to_slice(&value, &mut buf).map(|used| used.to_vec())
}

/// Relies on postcard::from_bytes on a `(u16, [u8; 4], [u8; 4])`: it reads a
/// varint of at least one byte, then eight single bytes, fails when the input
/// ends first, and leaves any bytes after them unread.
#[verifier::external_body]
fn postcard_from_bytes(bytes: &[u8]) -> (res: Result<Record, postcard::Error>)
    ensures
        forall|r: Record| #[trigger] record_spec(r).is_prefix_of(bytes@) ==> res is Ok && res->Ok_0 == r,
        bytes@.len() < 9 ==> res is Err,
{
    postcard::from_bytes::<(u16, [u8; 4], [u8; 4])>(bytes).map(|(co2, t, h)| Record {
        co2,
        temperature_bits: u32::from_le_bytes(t),
        humidity_bits: u32::from_le_bytes(h),
    })
}

/// Writes a record into its wire bytes.
pub fn encode_record(r: Record) -> (out: Result<Vec<u8>, SerializationError>)
    ensures
        out matches Ok(v) && v@ == record_spec(r),
{
    match postcard_to_slice(r) {
        Ok(v) => Ok(v),
        Err(_) => Err(SerializationError::Encoder),
    }
}

/// Reads a record from the front of `bytes`; what follows it is ignored.
/// Fewer than nine bytes never hold a record.
pub fn decode_record(bytes: &[u8]) -> (out: Result<Record, DecodeError>)
    ensures
        forall|r: Record| #[trigger] record_spec(r).is_prefix_of(bytes@) ==> out is Ok && out->Ok_0 == r,
        bytes@.len() < 9 ==> out == Err::<Record, DecodeError>(DecodeError::Malformed),
{
    match postcard_from_bytes(bytes) {
        Ok(r) => Ok(r),
        Err(_) => Err(DecodeError::Malformed),
    }
}

proof fn lemma_u16_from_digits(a: u16, b: u16)
    requires
        a % 128 == b % 128,
        (a / 128) % 128 == (b / 128) % 128,
        a / 16384 == b / 16384,
    ensures
        a == b,
{
    assert(a % 128 == b % 128 && (a / 128) % 128 == (b / 128) % 128 && a / 16384 == b / 16384
        ==> a == b) by (bit_vector);
}

proof fn lemma_u32_from_bytes(x: u32, y: u32)
    requires
        x % 256 == y % 256,
        (x / 256) % 256 == (y / 256) % 256,
        (x / 65536) % 256 == (y / 65536) % 256,
        x / 16777216 == y / 16777216,
    ensures
        x == y,
{
    assert(x % 256 == y % 256 && (x / 256) % 256 == (y / 256) % 256 && (x / 65536) % 256 == (
    y / 65536) % 256 && x / 16777216 == y / 16777216 ==> x == y) by (bit_vector);
}

/// Where the bytes of record `s` stand at the front of those of record `r`,
/// the two varints agree.
proof fn lemma_varint_agrees(r: Record, s: Record)
    requires
        record_spec(s).is_prefix_of(record_spec(r)),
    ensures
        s.co2 == r.co2,
{
    let a = record_spec(r);
    let b = record_spec(s);
    assert(b.len() >= 9);
    assert(a[0] == b[0] && a[1] == b[1] && a[2] == b[2]) by {
        assert(b == a.subrange(0, b.len() as int));
    }
    let (x, y) = (r.co2, s.co2);
    if x < 128 || y < 128 {
        assert(a[0] == b[0]);
    } else if x < 16384 || y < 16384 {
        assert(x / 128 < 128 || y / 128 < 128);
        lemma_u16_from_digits(x, y);
    } else {
        lemma_u16_from_digits(x, y);
    }
}

/// Round trip: the bytes that `encode_record` writes for `r` begin with the
/// bytes of `r` (so `decode_record` gives `r` back, with the same CO2 value and
/// the same float bit patterns), and they begin with the bytes of no other
/// record (so that answer is the only one its contract allows).
pub proof fn lemma_record_round_trip(r: Record, s: Record)
    ensures
        record_spec(r).is_prefix_of(record_spec(r)),
        record_spec(s).is_prefix_of(record_spec(r)) ==> s == r,
{
    assert(record_spec(r) == record_spec(r).subrange(0, record_spec(r).len() as int));
    if record_spec(s).is_prefix_of(record_spec(r)) {
        lemma_varint_agrees(r, s);
        let a = record_spec(r);
        let b = record_spec(s);
        let n = varint_u16_spec(r.co2).len() as int;
        assert(b == a.subrange(0, b.len() as int));
        assert(b.len() == a.len());
        assert(b =~= a);
        let (ta, ha) = (le_u32_spec(r.temperature_bits), le_u32_spec(r.humidity_bits));
        let (tb, hb) = (le_u32_spec(s.temperature_bits), le_u32_spec(s.humidity_bits));
        assert(a == varint_u16_spec(r.co2) + ta + ha);
        assert(b == varint_u16_spec(r.co2) + tb + hb);
        assert(ta =~= a.subrange(n, n + 4));
        assert(tb =~= b.subrange(n, n + 4));
        assert(ha =~= a.subrange(n + 4, n + 8));
        assert(hb =~= b.subrange(n + 4, n + 8));
        assert(ta[0] == tb[0] && ta[1] == tb[1] && ta[2] == tb[2] && ta[3] == tb[3]);
        assert(ha[0] == hb[0] && ha[1] == hb[1] && ha[2] == hb[2] && ha[3] == hb[3]);
        lemma_u32_from_bytes(r.temperature_bits, s.temperature_bits);
        lemma_u32_from_bytes(r.humidity_bits, s.humidity_bits);
    }
}

} // verus!
