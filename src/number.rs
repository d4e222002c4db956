use vstd::prelude::*;
use vstd::arithmetic::power2::*;

verus! {

/// A JavaScript number, held as the bit pattern of an IEEE-754 binary64
/// value: sign bit, 11 exponent bits, 52 fraction bits.
#[derive(Clone, Copy, Debug, PartialEq, Eq, Structural)]
pub struct JsNumber {
    pub bits: u64,
}

pub open spec fn sign_of(b: u64) -> bool {
    (b >> 63u64) == 1u64
}

pub open spec fn magnitude_of(b: u64) -> u64 {
    b & 0x7fff_ffff_ffff_ffffu64
}

pub open spec fn exponent_of(b: u64) -> u64 {
    (b >> 52u64) & 0x7ffu64
}

pub open spec fn fraction_of(b: u64) -> u64 {
    b & 0xf_ffff_ffff_ffffu64
}

/// NaN: all exponent bits set and a fraction that is not zero.
pub open spec fn is_nan_bits(b: u64) -> bool {
    exponent_of(b) == 0x7ffu64 && fraction_of(b) != 0
}

/// For values that are not NaN, the order of the real numbers (with
/// `-0 == +0` and the infinities at the ends) is the order of this key.
pub open spec fn order_key(b: u64) -> int {
    if sign_of(b) {
        -(magnitude_of(b) as int)
    } else {
        magnitude_of(b) as int
    }
}

/// `a === b` on numbers: NaN equals nothing, `+0` equals `-0`.
pub open spec fn number_eq(a: u64, b: u64) -> bool {
    !is_nan_bits(a) && !is_nan_bits(b) && order_key(a) == order_key(b)
}

/// `a < b` on numbers; every comparison with NaN is false.
pub open spec fn number_lt(a: u64, b: u64) -> bool {
    !is_nan_bits(a) && !is_nan_bits(b) && order_key(a) < order_key(b)
}

/// `a <= b` on numbers; every comparison with NaN is false.
pub open spec fn number_le(a: u64, b: u64) -> bool {
    !is_nan_bits(a) && !is_nan_bits(b) && order_key(a) <= order_key(b)
}

/// JavaScript truthiness of a number: false for `0`, `-0` and NaN.
pub open spec fn number_truthy(b: u64) -> bool {
    !is_nan_bits(b) && magnitude_of(b) != 0
}

/// The integer part of a finite number whose integer part has magnitude
/// below 2^31; `None` for every other number (large ones, the infinities,
/// NaN).
pub open spec fn truncated_int32(b: u64) -> Option<i32> {
    let e = exponent_of(b);
    if e < 1023 {
        Some(0i32)
    } else if e > 1053 {
        None
    } else {
        let m = ((0x10_0000_0000_0000u64 | fraction_of(b)) >> ((1075 - e) as u64)) as int;
        Some((if sign_of(b) { -m } else { m }) as i32)
    }
}

/// `b` is the binary64 value equal to the integer `v` (`+0` for zero).
pub open spec fn denotes_integer(b: u64, v: int) -> bool {
    if v == 0 {
        b == 0
    } else {
        let e = exponent_of(b) as int;
        &&& 1023 <= e < 1075
        &&& sign_of(b) == (v < 0)
        &&& fraction_of(b) + pow2(52) == (if v < 0 { -v } else { v }) * pow2((1075 - e) as nat)
    }
}

/// IEEE-754 binary64 arithmetic and number-to-text conversion, as the host
/// performs them. The evaluator hands these operations their operands and
/// stores what comes back; it holds no floating-point values itself.
pub trait NumberArith {
    /// `a + b`.
    fn add(&self, a: JsNumber, b: JsNumber) -> JsNumber;

    /// `a - b`.
    fn sub(&self, a: JsNumber, b: JsNumber) -> JsNumber;

    /// `a * b`.
    fn mul(&self, a: JsNumber, b: JsNumber) -> JsNumber;

    /// `a / b`.
    fn div(&self, a: JsNumber, b: JsNumber) -> JsNumber;

    /// `a ** b`.
    fn pow(&self, a: JsNumber, b: JsNumber) -> JsNumber;

    /// The default textual form of `a`, as string concatenation uses it.
    fn to_text(&self, a: JsNumber) -> String;
}

impl JsNumber {
    pub fn from_bits(bits: u64) -> (r: JsNumber)
        ensures
            r.bits == bits,
    {
        JsNumber { bits }
    }

    pub fn is_nan(&self) -> (r: bool)
        ensures
            r == is_nan_bits(self.bits),
    {
        ((self.bits >> 52u64) & 0x7ffu64) == 0x7ffu64 && (self.bits & 0xf_ffff_ffff_ffffu64) != 0
    }

    fn key(&self) -> (r: i64)
        ensures
            r as int == order_key(self.bits),
    {
        let b = self.bits;
        let m = b & 0x7fff_ffff_ffff_ffffu64;
        assert(m <= 0x7fff_ffff_ffff_ffffu64) by (bit_vector)
            requires
                m == b & 0x7fff_ffff_ffff_ffffu64,
        ;
        if (b >> 63u64) == 1u64 {
            -(m as i64)
        } else {
            m as i64
        }
    }

    /// Strict equality of two numbers.
    pub fn strict_equals(&self, other: &JsNumber) -> (r: bool)
        ensures
            r == number_eq(self.bits, other.bits),
    {
        !self.is_nan() && !other.is_nan() && self.key() == other.key()
    }

    /// `self < other`.
    pub fn less_than(&self, other: &JsNumber) -> (r: bool)
        ensures
            r == number_lt(self.bits, other.bits),
    {
        !self.is_nan() && !other.is_nan() && self.key() < other.key()
    }

    /// `self <= other`.
    pub fn less_or_equal(&self, other: &JsNumber) -> (r: bool)
        ensures
            r == number_le(self.bits, other.bits),
    {
        !self.is_nan() && !other.is_nan() && self.key() <= other.key()
    }

    /// Truthiness of the number.
    pub fn is_truthy(&self) -> (r: bool)
        ensures
            r == number_truthy(self.bits),
    {
        !self.is_nan() && (self.bits & 0x7fff_ffff_ffff_ffffu64) != 0
    }

    /// The integer part as a 32-bit integer, when its magnitude is below 2^31.
    pub fn as_int32(&self) -> (r: Option<i32>)
        ensures
            r == truncated_int32(self.bits),
    {
        let b = self.bits;
        let e = (b >> 52u64) & 0x7ffu64;
        assert(e <= 0x7ffu64) by (bit_vector)
            requires
                e == (b >> 52u64) & 0x7ffu64,
        ;
        if e < 1023 {
            Some(0i32)
        } else if e > 1053 {
            None
        } else {
            let f = b & 0xf_ffff_ffff_ffffu64;
            let s: u64 = 1075 - e;
            let m = (0x10_0000_0000_0000u64 | f) >> s;
            assert(m < 0x8000_0000u64) by (bit_vector)
                requires
                    f == b & 0xf_ffff_ffff_ffffu64,
                    22u64 <= s,
                    m == (0x10_0000_0000_0000u64 | f) >> s,
            ;
            if (b >> 63u64) == 1u64 {
                Some(-(m as i32))
            } else {
                Some(m as i32)
            }
        }
    }

    /// The binary64 value equal to a 32-bit integer.
    pub fn from_int32(v: i32) -> (r: JsNumber)
        ensures
            denotes_integer(r.bits, v as int),
    {
        if v == 0 {
            return JsNumber { bits: 0 };
        }
        let neg = v < 0;
        let a: u64 = if neg {
            (-(v as i64)) as u64
        } else {
            v as u64
        };
        let mut m: u64 = a;
        let mut sc: u64 = 1;
        let mut k: u64 = 0;
        proof {
            lemma2_to64();
            lemma2_to64_rest();
            lemma_pow2(0);
        }
        while m < 0x10_0000_0000_0000u64
            invariant
                1 <= a <= 0x8000_0000,
                m == a * sc,
                sc == pow2(k as nat),
                1 <= sc,
                k <= 52,
                m < 0x20_0000_0000_0000u64,
                k == 0 ==> m == a,
            decreases 52 - k,
        {
            proof {
                lemma_pow2_unfold((k + 1) as nat);
                assert(sc <= m) by (nonlinear_arith)
                    requires
                        m == a * sc,
                        1 <= a,
                ;
                lemma2_to64_rest();
                assert(m * 2 == a * (sc * 2)) by (nonlinear_arith)
                    requires
                        m == a * sc,
                ;
            }
            m = m * 2;
            sc = sc * 2;
            k = k + 1;
        }
        let e: u64 = 1075 - k;
        let f: u64 = m - 0x10_0000_0000_0000u64;
        let sbit: u64 = if neg {
            0x8000_0000_0000_0000u64
        } else {
            0
        };
        let bits = sbit | (e << 52u64) | f;
        assert(((bits >> 52u64) & 0x7ffu64) == e && (bits & 0xf_ffff_ffff_ffffu64) == f) by (
        bit_vector)
            requires
                bits == sbit | (e << 52u64) | f,
                f < 0x10_0000_0000_0000u64,
                e < 2048,
                sbit == 0 || sbit == 0x8000_0000_0000_0000u64,
        ;
        assert(sbit == 0 ==> (bits >> 63u64) == 0) by (bit_vector)
            requires
                bits == sbit | (e << 52u64) | f,
                f < 0x10_0000_0000_0000u64,
                e < 2048,
        ;
        assert(sbit == 0x8000_0000_0000_0000u64 ==> (bits >> 63u64) == 1) by (bit_vector)
            requires
                bits == sbit | (e << 52u64) | f,
        ;
        proof {
            lemma2_to64_rest();
        }
        JsNumber { bits }
    }
}

} // verus!
