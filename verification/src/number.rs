//! Finite IEEE-754 double-precision numbers, held as their 64-bit pattern.
//!
//! A reading of the heating controller is a finite binary64 number. This
//! module holds such a number by its bit pattern and reasons about it with
//! integer arithmetic alone.

use vstd::arithmetic::div_mod::lemma_small_mod;
use vstd::arithmetic::power2::{
    lemma2_to64, lemma2_to64_rest, lemma_pow2_pos, lemma_pow2_strictly_increases, pow2,
};
use vstd::bits::lemma_u64_shl_is_mul;
use vstd::prelude::*;

verus! {

/// The biased exponent field of a binary64 bit pattern (bits 52 to 62).
pub open spec fn biased_exponent(bits: u64) -> int {
    (bits as int / 0x10_0000_0000_0000) % 0x800
}

/// Whether a binary64 bit pattern denotes a finite number (neither an
/// infinity nor a NaN).
pub open spec fn is_finite_bits(bits: u64) -> bool {
    biased_exponent(bits) != 0x7ff
}

/// Whether the sign bit of a binary64 bit pattern is set.
pub open spec fn is_negative_bits(bits: u64) -> bool {
    bits >= 0x8000_0000_0000_0000
}

/// The fraction field of a binary64 bit pattern (bits 0 to 51).
pub open spec fn fraction(bits: u64) -> int {
    bits as int % 0x10_0000_0000_0000
}

/// The integer significand `m` of a finite binary64 bit pattern, whose
/// magnitude is `m * 2^exponent(bits)`.
pub open spec fn significand(bits: u64) -> int {
    if biased_exponent(bits) == 0 {
        fraction(bits)
    } else {
        0x10_0000_0000_0000 + fraction(bits)
    }
}

/// The power of two by which [`significand`] is scaled.
pub open spec fn exponent(bits: u64) -> int {
    if biased_exponent(bits) == 0 {
        -1074
    } else {
        biased_exponent(bits) - 1075
    }
}

/// The magnitude `m * 2^e` of a finite bit pattern, where it is a whole
/// number below `2^63`.
pub open spec fn integer_magnitude(bits: u64) -> Option<int> {
    let m = significand(bits);
    let e = exponent(bits);
    if e >= 0 {
        if m * pow2(e as nat) < 0x8000_0000_0000_0000 {
            Some(m * pow2(e as nat))
        } else {
            None
        }
    } else if m % (pow2((-e) as nat) as int) == 0 {
        Some(m / (pow2((-e) as nat) as int))
    } else {
        None
    }
}

/// The value of a finite bit pattern, where it is a whole number of
/// magnitude below `2^63`.
pub open spec fn integer_value(bits: u64) -> Option<int> {
    match integer_magnitude(bits) {
        Some(k) => Some(
            if is_negative_bits(bits) {
                -k
            } else {
                k
            },
        ),
        None => None,
    }
}

/// A finite binary64 number.
#[derive(Clone, Copy, Debug)]
pub struct Number {
    bits: u64,
}

impl Number {
    #[verifier::type_invariant]
    spec fn finite(self) -> bool {
        is_finite_bits(self.bits)
    }

    /// The bit pattern of this number.
    pub closed spec fn spec_bits(&self) -> u64 {
        self.bits
    }

    /// The number with bit pattern `bits`, if that pattern is finite.
    pub fn from_bits(bits: u64) -> (r: Option<Number>)
        ensures
            r is Some <==> is_finite_bits(bits),
            r matches Some(n) ==> n.spec_bits() == bits,
    {
        if (bits / 0x10_0000_0000_0000) % 0x800 != 0x7ff {
            Some(Number { bits })
        } else {
            None
        }
    }

    /// The bit pattern of this number.
    #[verifier::when_used_as_spec(spec_bits)]
    pub fn bits(&self) -> (r: u64)
        ensures
            r == self.spec_bits(),
            is_finite_bits(r),
    {
        proof {
            use_type_invariant(self);
        }
        self.bits
    }

    /// This number as an integer, where it is a whole number of magnitude
    /// below `2^63`.
    pub fn as_integer(&self) -> (r: Option<i64>)
        ensures
            match r {
                Some(k) => integer_value(self.bits()) == Some(k as int),
                None => integer_value(self.bits()) is None,
            },
    {
        let bits: u64 = self.bits;
        let biased: u64 = (bits / 0x10_0000_0000_0000) % 0x800;
        let frac: u64 = bits % 0x10_0000_0000_0000;
        let negative: bool = bits >= 0x8000_0000_0000_0000;
        let m: u64 = if biased == 0 {
            frac
        } else {
            0x10_0000_0000_0000 + frac
        };
        let magnitude: u64;
        if biased >= 1075 {
            let shift: u64 = biased - 1075;
            if shift > 10 {
                proof {
                    lemma2_to64();
                    if shift > 11 {
                        lemma_pow2_strictly_increases(11, shift as nat);
                    }
                    assert(m * pow2(shift as nat) >= 0x8000_0000_0000_0000) by (nonlinear_arith)
                        requires
                            m >= 0x10_0000_0000_0000,
                            pow2(shift as nat) >= 2048,
                    ;
                }
                return None;
            }
            proof {
                lemma2_to64();
                if shift < 10 {
                    lemma_pow2_strictly_increases(shift as nat, 10);
                }
                assert(m * pow2(shift as nat) < 0x8000_0000_0000_0000) by (nonlinear_arith)
                    requires
                        m < 0x20_0000_0000_0000,
                        0 <= pow2(shift as nat) <= 1024,
                ;
                lemma_u64_shl_is_mul(m, shift);
            }
            magnitude = m << shift;
        } else {
            let k: u64 = if biased == 0 {
                1074
            } else {
                1075 - biased
            };
            proof {
                lemma_pow2_pos(k as nat);
            }
            if m == 0 {
                magnitude = 0;
                proof {
                    let p = pow2(k as nat) as int;
                    assert(0int % p == 0 && 0int / p == 0) by (nonlinear_arith)
                        requires
                            p > 0,
                    ;
                }
            } else if k >= 53 {
                proof {
                    lemma2_to64_rest();
                    if k > 53 {
                        lemma_pow2_strictly_increases(53, k as nat);
                    }
                    lemma_small_mod(m as nat, pow2(k as nat));
                }
                return None;
            } else {
                proof {
                    lemma2_to64();
                    lemma2_to64_rest();
                    if k < 52 {
                        lemma_pow2_strictly_increases(k as nat, 52);
                    }
                    lemma_u64_shl_is_mul(1, k);
                }
                let p: u64 = 1u64 << k;
                if m % p != 0 {
                    return None;
                }
                magnitude = m / p;
            }
        }
        if negative {
            Some(-(magnitude as i64))
        } else {
            Some(magnitude as i64)
        }
    }
}

} // verus!
