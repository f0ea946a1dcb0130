use vstd::prelude::*;

verus! {

/// The exponent of a linear value: bits 3..7 of the high byte, read as a
/// five-bit two's-complement number.
pub open spec fn exponent_of(hi: u8) -> int {
    let e = hi as int / 8;
    if e > 15 {
        e - 32
    } else {
        e
    }
}

/// The mantissa of a linear value: the low three bits of the high byte above
/// the low byte. A raw value above 1024 counts as negative (it is taken
/// 2048 down); 1024 itself stays positive.
pub open spec fn mantissa_of(lo: u8, hi: u8) -> int {
    let m = (hi as int % 8) * 256 + lo as int;
    if m > 1024 {
        m - 2048
    } else {
        m
    }
}

/// A value in the device's linear format: `mantissa * 2^exponent`.
#[derive(Clone, Copy, Debug, PartialEq, Eq, Structural)]
pub struct LinearValue {
    pub mantissa: i32,
    pub exponent: i32,
}

impl LinearValue {
    /// The value is above zero exactly when its mantissa is.
    pub open spec fn positive(&self) -> bool {
        self.mantissa > 0
    }

    /// Tells whether the value is above zero.
    pub fn is_positive(&self) -> (r: bool)
        ensures
            r == self.positive(),
    {
        self.mantissa > 0
    }
}

/// The exponent field of the high byte.
pub fn linear_exponent(hi: u8) -> (r: i32)
    ensures
        r == exponent_of(hi),
        -16 <= r <= 15,
{
    let mut e: i32 = ((hi as i32) >> 3) & 31;
    assert(e == hi as int / 8) by (bit_vector)
        requires
            e == ((hi as i32) >> 3) & 31,
    ;
    if e > 15 {
        e -= 32;
    }
    e
}

/// The mantissa field of a value, sign-corrected by the device's mask.
pub fn linear_mantissa(lo: u8, hi: u8) -> (r: i32)
    ensures
        r == mantissa_of(lo, hi),
        -1023 <= r <= 1024,
{
    let h: i32 = (hi as i32) & 7;
    assert(h == hi as int % 8) by (bit_vector)
        requires
            h == (hi as i32) & 7,
    ;
    let mut m: i32 = h * 256 + (lo as i32);
    if m > 1024 {
        let masked: i32 = m | 63488;
        assert(masked == m + 63488) by (bit_vector)
            requires
                0 <= m < 2048,
                masked == m | 63488,
        ;
        m = -(65536 - masked);
    }
    m
}

/// Reads a two-byte register value in the linear format. A value of fewer
/// than two bytes reads as zero.
pub fn decode_linear(data: &[u8]) -> (r: LinearValue)
    ensures
        data@.len() < 2 ==> r == (LinearValue { mantissa: 0, exponent: 0 }),
        data@.len() >= 2 ==> r.mantissa == mantissa_of(data@[0], data@[1]) && r.exponent
            == exponent_of(data@[1]),
{
    if data.len() < 2 {
        return LinearValue { mantissa: 0, exponent: 0 };
    }
    LinearValue { mantissa: linear_mantissa(data[0], data[1]), exponent: linear_exponent(data[1]) }
}

/// The little-endian 16-bit count held by the first two bytes.
pub open spec fn le_count(lo: u8, hi: u8) -> int {
    lo as int + 256 * hi as int
}

/// Reads the uptime register: seconds as a little-endian 16-bit count. A reply
/// of fewer than two bytes holds no count.
pub fn uptime_seconds(data: &[u8]) -> (r: Option<u16>)
    ensures
        data@.len() < 2 ==> r is None,
        data@.len() >= 2 ==> r == Some(le_count(data@[0], data@[1]) as u16),
{
    if data.len() < 2 {
        return None;
    }
    Some((data[0] as u16) + (data[1] as u16) * 256)
}

} // verus!
