//! Single-precision numbers carried by their bit patterns.
//!
//! Coordinates, sizes and densities reach this crate as IEEE 754 binary32
//! values. The crate never does arithmetic in floating point: it stores and
//! forwards the bit patterns unchanged, and the one place where it needs a
//! number out of a pattern, the conversion of a pixel coordinate to an
//! integer, is done exactly on the fields of the encoding.

use vstd::arithmetic::div_mod::lemma_basic_div;
use vstd::arithmetic::mul::lemma_mul_inequality;
use vstd::arithmetic::power2::{lemma2_to64, lemma_pow2_pos, lemma_pow2_strictly_increases, pow2};
use vstd::bits::lemma_u64_shl_is_mul;
use vstd::prelude::*;

verus! {

/// Bit pattern of the number one.
pub const ONE_BITS: u32 = 0x3f80_0000;

/// Two to the power 23: the weight of the hidden leading bit of a normal number,
/// and the divisor that separates the exponent field from the fraction field.
pub const HIDDEN_BIT: u32 = 0x80_0000;

/// A binary32 number, identified with its bit pattern.
///
/// Two scalars are equal when their bit patterns are, so a NaN equals itself
/// and the two zeros differ. That is the equality of "the same value was
/// handed on", which is the only one this crate needs.
#[derive(Clone, Copy, Debug, PartialEq, Eq, Structural)]
pub struct Scalar {
    pub bits: u32,
}

impl Scalar {
    /// The sign bit is set (negative numbers, negative zero, and half of the NaNs).
    pub open spec fn is_negative(self) -> bool {
        self.bits >= 0x8000_0000
    }

    /// The eight-bit biased exponent field.
    pub open spec fn exponent_field(self) -> nat {
        ((self.bits as nat) / (HIDDEN_BIT as nat)) % 0x100
    }

    /// The 23-bit fraction field.
    pub open spec fn fraction_field(self) -> nat {
        (self.bits as nat) % (HIDDEN_BIT as nat)
    }

    /// Not a number: the exponent field is all ones and the fraction is not zero.
    pub open spec fn is_nan(self) -> bool {
        self.exponent_field() == 0xff && self.fraction_field() != 0
    }

    /// An infinity: the exponent field is all ones and the fraction is zero.
    pub open spec fn is_infinite(self) -> bool {
        self.exponent_field() == 0xff && self.fraction_field() == 0
    }

    /// The integer `m` of a finite number written as `m * 2^scale`.
    pub open spec fn significand(self) -> nat {
        if self.exponent_field() == 0 {
            self.fraction_field()
        } else {
            HIDDEN_BIT as nat + self.fraction_field()
        }
    }

    /// The exponent `scale` of a finite number written as `m * 2^scale`.
    pub open spec fn scale(self) -> int {
        if self.exponent_field() == 0 {
            -149
        } else {
            self.exponent_field() - 150
        }
    }

    /// The magnitude of a finite number, rounded down to an integer.
    pub open spec fn magnitude_floor(self) -> nat {
        if self.scale() >= 0 {
            self.significand() * pow2(self.scale() as nat)
        } else {
            self.significand() / pow2((-self.scale()) as nat)
        }
    }

    /// The number as a count of whole pixels: rounded toward zero and held
    /// to the range of `u32`. Negative numbers and NaN give zero, numbers
    /// too large (positive infinity among them) give `u32::MAX`.
    pub open spec fn pixels(self) -> nat {
        if self.is_negative() || self.is_nan() {
            0
        } else if self.is_infinite() || self.magnitude_floor() > u32::MAX {
            u32::MAX as nat
        } else {
            self.magnitude_floor()
        }
    }

    /// The scalar with the given bit pattern.
    pub fn from_bits(bits: u32) -> (s: Scalar)
        ensures
            s.bits == bits,
    {
        Scalar { bits }
    }

    /// The bit pattern of the scalar.
    pub fn to_bits(self) -> (bits: u32)
        ensures
            bits == self.bits,
    {
        self.bits
    }

    /// The number zero (all bits clear).
    pub fn zero() -> (s: Scalar)
        ensures
            s.bits == 0,
    {
        Scalar { bits: 0 }
    }

    /// The number one.
    pub fn one() -> (s: Scalar)
        ensures
            s.bits == ONE_BITS,
    {
        Scalar { bits: ONE_BITS }
    }

    /// Converts a pixel coordinate to an integer, see [`Scalar::pixels`].
    pub fn to_pixels(self) -> (r: u32)
        ensures
            r == self.pixels(),
    {
        let bits: u32 = self.bits;
        if bits >= 0x8000_0000 {
            return 0;
        }
        let exponent: u32 = bits / HIDDEN_BIT;
        let fraction: u32 = bits % HIDDEN_BIT;
        assert(exponent == self.exponent_field());
        assert(fraction == self.fraction_field());
        if exponent == 0xff {
            return if fraction == 0 {
                u32::MAX
            } else {
                0
            };
        }
        if exponent < 127 {
            proof {
                lemma_magnitude_below_one(self);
            }
            return 0;
        }
        let significand: u64 = HIDDEN_BIT as u64 + fraction as u64;
        if exponent >= 150 {
            let shift: u32 = exponent - 150;
            if shift >= 9 {
                proof {
                    lemma2_to64();
                    if shift > 9 {
                        lemma_pow2_strictly_increases(9, shift as nat);
                    }
                    lemma_mul_inequality(
                        HIDDEN_BIT as int,
                        significand as int,
                        pow2(shift as nat) as int,
                    );
                    lemma_mul_inequality(
                        pow2(9) as int,
                        pow2(shift as nat) as int,
                        HIDDEN_BIT as int,
                    );
                    assert(pow2(shift as nat) * (HIDDEN_BIT as int) == (HIDDEN_BIT as int) * pow2(
                        shift as nat,
                    )) by (nonlinear_arith);
                }
                u32::MAX
            } else {
                let factor: u64 = power_of_two(shift);
                assert(significand * factor <= 0x100_0000 * 0x100) by (nonlinear_arith)
                    requires
                        significand < 0x100_0000,
                        factor <= 0x100,
                ;
                let whole: u64 = significand * factor;
                if whole > u32::MAX as u64 {
                    u32::MAX
                } else {
                    whole as u32
                }
            }
        } else {
            let shift: u32 = 150 - exponent;
            let divisor: u64 = power_of_two(shift);
            proof {
                lemma_pow2_pos(shift as nat);
            }
            let whole: u64 = significand / divisor;
            whole as u32
        }
    }
}

/// Two to the power `k`, for the small exponents that a pixel conversion meets.
fn power_of_two(k: u32) -> (p: u64)
    requires
        k <= 32,
    ensures
        p == pow2(k as nat),
        k <= 8 ==> p <= 0x100,
{
    proof {
        lemma2_to64();
        if k < 32 {
            lemma_pow2_strictly_increases(k as nat, 32);
        }
        if k < 8 {
            lemma_pow2_strictly_increases(k as nat, 8);
        }
        lemma_u64_shl_is_mul(1, k as u64);
    }
    1u64 << (k as u64)
}

/// A finite number whose exponent field is below the bias has magnitude
/// below one, so its integer part is zero.
proof fn lemma_magnitude_below_one(s: Scalar)
    requires
        s.exponent_field() < 127,
    ensures
        s.magnitude_floor() == 0,
{
    let k: nat = (-s.scale()) as nat;
    assert(k >= 24);
    lemma2_to64();
    if k > 24 {
        lemma_pow2_strictly_increases(24, k);
    }
    assert(s.significand() < 0x100_0000);
    lemma_basic_div(s.significand() as int, pow2(k) as int);
}

/// The pattern [`ONE_BITS`] is one whole pixel.
pub proof fn lemma_one_is_one_pixel()
    ensures
        (Scalar { bits: ONE_BITS }).pixels() == 1,
{
    let s = Scalar { bits: ONE_BITS };
    assert(s.exponent_field() == 127);
    assert(s.fraction_field() == 0);
    lemma2_to64();
    assert(s.magnitude_floor() == 0x80_0000nat / pow2(23));
}

} // verus!
