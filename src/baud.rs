use vstd::prelude::*;

verus! {

/// The value of four bytes read as a little-endian unsigned integer.
pub open spec fn le_u32(b: Seq<u8>) -> int
    recommends
        b.len() >= 4,
{
    b[0] as int + 256 * (b[1] as int) + 65536 * (b[2] as int) + 16777216 * (b[3] as int)
}

/// Two bauds are acceptable to one another when both are nonzero and their
/// bit periods differ by at most five percent of the expected one:
/// |1/baud - 1/expected| / (1/expected) <= 1/20, i.e. 20 * |expected - baud| <= baud.
pub open spec fn acceptable(baud: int, expected: int) -> bool {
    &&& baud != 0
    &&& expected != 0
    &&& 20 * (if expected >= baud { expected - baud } else { baud - expected }) <= baud
}

/// Whether a baud reported by the device matches the requested one within tolerance.
pub fn baud_acceptable(baud: u32, baud_expected: u32) -> (r: bool)
    ensures
        r == acceptable(baud as int, baud_expected as int),
{
    if baud == 0 || baud_expected == 0 {
        return false;
    }
    let diff: u64 = if baud_expected >= baud {
        (baud_expected - baud) as u64
    } else {
        (baud - baud_expected) as u64
    };
    20 * diff <= baud as u64
}

/// Reads a baud value from the raw characteristic bytes: the first four bytes,
/// little-endian. Fewer than four bytes is a malformed reading.
pub fn decode_baud(bytes: &[u8]) -> (r: Option<u32>)
    ensures
        bytes@.len() < 4 ==> r.is_none(),
        bytes@.len() >= 4 ==> r == Some(le_u32(bytes@) as u32) && le_u32(bytes@) < 0x1_0000_0000,
{
    if bytes.len() < 4 {
        return None;
    }
    let b0 = bytes[0] as u32;
    let b1 = bytes[1] as u32;
    let b2 = bytes[2] as u32;
    let b3 = bytes[3] as u32;
    assert(le_u32(bytes@) < 0x1_0000_0000) by (nonlinear_arith)
        requires
            b0 < 256, b1 < 256, b2 < 256, b3 < 256,
            le_u32(bytes@) == b0 + 256 * b1 + 65536 * b2 + 16777216 * b3,
    ;
    Some(b0 + 256 * b1 + 65536 * b2 + 16777216 * b3)
}

/// The four bytes, little-endian, that carry a baud value to the device.
pub fn encode_baud(baud: u32) -> (r: Vec<u8>)
    ensures
        r@.len() == 4,
        le_u32(r@) == baud as int,
{
    let q1 = baud / 256;
    let q2 = q1 / 256;
    let q3 = q2 / 256;
    let v = vec![(baud % 256) as u8, (q1 % 256) as u8, (q2 % 256) as u8, q3 as u8];
    assert(q3 < 256);
    assert(le_u32(v@) == baud as int) by (nonlinear_arith)
        requires
            baud as int == 256 * q1 + baud % 256,
            q1 as int == 256 * q2 + q1 % 256,
            q2 as int == 256 * q3 + q2 % 256,
            v@[0] as int == baud % 256,
            v@[1] as int == q1 % 256,
            v@[2] as int == q2 % 256,
            v@[3] as int == q3,
            le_u32(v@) == v@[0] as int + 256 * (v@[1] as int) + 65536 * (v@[2] as int) + 16777216 * (v@[3] as int),
    ;
    v
}

} // verus!
