//! IEEE 754 binary32 values, held by their bit pattern.
//!
//! The uniform block that a fragment program reads is made of single-precision
//! numbers. The library never computes with them: it stores them, lays them
//! out in memory and, for the surface resolution, produces them from pixel
//! counts. All of that is integer work on the 32-bit encoding
//! (1 sign bit, 8 exponent bits biased by 127, 23 fraction bits).

use vstd::arithmetic::div_mod::*;
use vstd::arithmetic::mul::*;
use vstd::arithmetic::power2::*;
use vstd::bits::*;
use vstd::prelude::*;
use vstd::std_specs::bits::*;

verus! {

/// Number of fraction bits of the format.
pub const FRACTION_BITS: u32 = 23;

/// Exponent bias of the format.
pub const EXPONENT_BIAS: u32 = 127;

/// `2^23`: the weight of the implicit leading bit of a normal significand.
pub const HIDDEN_BIT: u32 = 0x80_0000;

/// The greatest `e` with `2^e <= n`, and 0 for `n == 0`.
pub open spec fn floor_log2(n: nat) -> nat
    decreases n,
{
    if n < 2 {
        0
    } else {
        floor_log2(n / 2) + 1
    }
}

/// `n / 2^k` rounded to the nearest integer; a tie goes to the even neighbour.
pub open spec fn div_pow2_nearest_even(n: nat, k: nat) -> nat {
    let unit = pow2(k);
    let below = n / unit;
    let rest = n % unit;
    if 2 * rest < unit || (2 * rest == unit && below % 2 == 0) {
        below
    } else {
        below + 1
    }
}

/// The 24-bit significand (hidden bit included) of the binary32 nearest to
/// `n > 0`. It may come out as `2^24` when rounding carries into the next
/// binade.
pub open spec fn nearest_significand(n: nat) -> nat {
    let e = floor_log2(n);
    if e <= 23 {
        n * pow2((23 - e) as nat)
    } else {
        div_pow2_nearest_even(n, (e - 23) as nat)
    }
}

/// The encoding of the binary32 nearest to the natural number `n`, ties going
/// to the even significand. Meant for `n < 2^128`; every `u32` is far below.
pub open spec fn nearest_bits(n: nat) -> nat {
    if n == 0 {
        0
    } else {
        ((floor_log2(n) + 127) * 0x80_0000 + (nearest_significand(n) - 0x80_0000)) as nat
    }
}

/// The whole number that the binary32 nearest to `n` stands for: `n` itself
/// while 24 bits hold it, and beyond that the nearest multiple of the spacing
/// `2^(e - 23)` of the numbers with `e = floor_log2(n)`, ties going to the
/// even multiple.
pub open spec fn nearest_whole(n: nat) -> nat {
    let e = floor_log2(n);
    if e <= 23 {
        n
    } else {
        div_pow2_nearest_even(n, (e - 23) as nat) * pow2((e - 23) as nat)
    }
}

/// A single-precision number as its 32-bit encoding.
#[derive(Clone, Copy, Debug, PartialEq, Eq, Structural)]
pub struct Binary32 {
    pub bits: u32,
}

impl Binary32 {
    /// Positive zero.
    pub open spec fn zero() -> Binary32 {
        Binary32 { bits: 0 }
    }

    /// The value that `n` converts to.
    pub open spec fn of_u32(n: u32) -> Binary32 {
        Binary32 { bits: nearest_bits(n as nat) as u32 }
    }

    /// True when the sign bit is set.
    pub open spec fn is_negative(self) -> bool {
        self.bits >= 0x8000_0000
    }

    /// The encoding without its sign bit.
    pub open spec fn magnitude(self) -> nat {
        (self.bits % 0x8000_0000) as nat
    }

    /// The biased exponent field.
    pub open spec fn exponent(self) -> nat {
        self.magnitude() / 0x80_0000
    }

    /// The fraction field.
    pub open spec fn fraction(self) -> nat {
        self.magnitude() % 0x80_0000
    }

    /// The significand of a normal number: the fraction below the hidden bit.
    pub open spec fn significand(self) -> nat {
        0x80_0000 + self.fraction()
    }

    /// True when the encoding stands for the whole number `v`: positive zero
    /// for 0, and otherwise the normal number whose significand, scaled by
    /// two to the power of the unbiased exponent less 23, is `v`.
    pub open spec fn encodes(self, v: nat) -> bool {
        if v == 0 {
            self.bits == 0
        } else {
            &&& !self.is_negative()
            &&& 127 <= self.exponent() < 255
            &&& if self.exponent() >= 150 {
                v == self.significand() * pow2((self.exponent() - 150) as nat)
            } else {
                v * pow2((150 - self.exponent()) as nat) == self.significand()
            }
        }
    }

    /// A key that orders encodings as the numbers they stand for: where `a`
    /// and `b` stand for numbers, infinite ones included, `a <= b` holds
    /// exactly when `a.order_key() <= b.order_key()`. Both zeros have key 0.
    pub open spec fn order_key(self) -> int {
        if self.is_negative() {
            -(self.magnitude() as int)
        } else {
            self.magnitude() as int
        }
    }

    /// Wraps an encoding.
    pub fn from_bits(bits: u32) -> (r: Binary32)
        ensures
            r.bits == bits,
    {
        Binary32 { bits }
    }

    /// The encoding.
    pub fn to_bits(self) -> (bits: u32)
        ensures
            bits == self.bits,
    {
        self.bits
    }

    /// Positive zero.
    pub fn new_zero() -> (r: Binary32)
        ensures
            r == Binary32::zero(),
    {
        Binary32 { bits: 0 }
    }

    /// Converts an unsigned integer to the nearest binary32, ties to even:
    /// what the language's own integer-to-float conversion yields. The result
    /// stands for `n` rounded to what the format holds, and for `n` itself
    /// below `2^24`.
    pub fn from_u32(n: u32) -> (r: Binary32)
        ensures
            r == Binary32::of_u32(n),
            r.bits == nearest_bits(n as nat),
            r.encodes(nearest_whole(n as nat)),
            n < 0x100_0000 ==> r.encodes(n as nat),
    {
        proof {
            lemma_of_u32_encodes(n);
            if n < 0x100_0000 {
                lemma_nearest_whole_exact(n as nat);
            }
        }
        if n == 0 {
            return Binary32 { bits: 0 };
        }
        let e: u32 = 31 - n.leading_zeros();
        proof {
            lemma_highest_bit(n);
            lemma_floor_log2_unique(n as nat, e as nat);
            lemma2_to64();
        }
        let significand: u32 = if e <= FRACTION_BITS {
            let up: u32 = FRACTION_BITS - e;
            proof {
                lemma_pow2_adds((e + 1) as nat, up as nat);
                lemma_pow2_pos(up as nat);
                lemma_mul_strict_inequality(
                    n as int,
                    pow2((e + 1) as nat) as int,
                    pow2(up as nat) as int,
                );
                lemma_mul_inequality(pow2(e as nat) as int, n as int, pow2(up as nat) as int);
                lemma_pow2_adds(e as nat, up as nat);
                lemma_u32_shl_is_mul(n, up);
            }
            n << up
        } else {
            let k: u32 = e - FRACTION_BITS;
            proof {
                lemma_pow2_pos(k as nat);
                lemma_pow2_strictly_increases(k as nat, 9);
                lemma_pow2_unfold(k as nat);
                lemma_u32_shl_is_mul(1, k);
                lemma_u32_shl_is_mul(1, (k - 1) as u32);
                lemma_pow2_strictly_increases((k - 1) as nat, 9);
            }
            let unit: u32 = 1u32 << k;
            let half: u32 = 1u32 << (k - 1);
            let below: u32 = n / unit;
            let rest: u32 = n % unit;
            proof {
                lemma_significand_range(n as nat, e as nat, k as nat);
            }
            if rest < half || (rest == half && below % 2 == 0) {
                below
            } else {
                below + 1
            }
        };
        Binary32 { bits: (e + EXPONENT_BIAS) * HIDDEN_BIT + (significand - HIDDEN_BIT) }
    }
}

/// For `n > 0`, the position of the highest set bit brackets `n` between two
/// consecutive powers of two.
proof fn lemma_highest_bit(n: u32)
    requires
        n > 0,
    ensures
        u32_leading_zeros(n) < 32,
        pow2((31 - u32_leading_zeros(n)) as nat) <= n < pow2((32 - u32_leading_zeros(n)) as nat),
{
    axiom_u32_leading_zeros(n);
    let lz: u32 = u32_leading_zeros(n);
    let e: u32 = (31 - lz) as u32;
    lemma2_to64();
    lemma_pow2_pos(e as nat);
    lemma_u32_pow2_no_overflow(e as nat);
    assert(n >> e != 0) by {
        assert((n >> e) & 1u32 != 0u32 ==> n >> e != 0) by (bit_vector);
    }
    assert(pow2(e as nat) <= n) by {
        lemma_u32_shr_is_div(n, e);
        if n < pow2(e as nat) {
            lemma_basic_div(n as int, pow2(e as nat) as int);
        }
    }
    assert(n < pow2((e + 1) as nat)) by {
        if e < 31 {
            let up: u32 = (e + 1) as u32;
            assert(n >> up == 0);
            lemma_u32_shr_is_div(n, up);
            lemma_pow2_pos(up as nat);
            if n >= pow2(up as nat) {
                lemma_div_is_ordered(pow2(up as nat) as int, n as int, pow2(up as nat) as int);
                lemma_div_by_self(pow2(up as nat) as int);
            }
        }
    }
}

/// The bracket `2^e <= n < 2^(e+1)` determines `floor_log2(n)`.
pub proof fn lemma_floor_log2_unique(n: nat, e: nat)
    requires
        pow2(e) <= n < pow2(e + 1),
    ensures
        floor_log2(n) == e,
    decreases e,
{
    lemma2_to64();
    if e == 0 {
        assert(n < 2);
    } else {
        lemma_pow2_unfold(e);
        lemma_pow2_unfold(e + 1);
        lemma_floor_log2_unique(n / 2, (e - 1) as nat);
    }
}

/// Every `n > 0` lies between two consecutive powers of two, the lower one
/// having the exponent `floor_log2(n)`.
pub proof fn lemma_floor_log2_bracket(n: nat)
    requires
        n > 0,
    ensures
        pow2(floor_log2(n)) <= n < pow2(floor_log2(n) + 1),
    decreases n,
{
    lemma2_to64();
    if n >= 2 {
        lemma_floor_log2_bracket(n / 2);
        lemma_pow2_unfold(floor_log2(n));
        lemma_pow2_unfold(floor_log2(n) + 1);
    }
}

/// `floor_log2` does not decrease when its argument grows.
pub proof fn lemma_floor_log2_monotone(n: nat, m: nat)
    requires
        n <= m,
    ensures
        floor_log2(n) <= floor_log2(m),
    decreases m,
{
    if n >= 2 {
        lemma_floor_log2_monotone(n / 2, m / 2);
    }
}

/// With `2^e <= n < 2^(e+1)` and `k = e - 23 > 0`, the quotient `n / 2^k`
/// lies in `[2^23, 2^24)`.
proof fn lemma_significand_range(n: nat, e: nat, k: nat)
    requires
        pow2(e) <= n < pow2(e + 1),
        e == k + 23,
        k > 0,
    ensures
        0x80_0000 <= n / pow2(k) < 0x100_0000,
{
    lemma2_to64();
    lemma_pow2_pos(k);
    lemma_pow2_adds(23, k);
    lemma_pow2_adds(24, k);
    let unit = pow2(k) as int;
    lemma_div_is_ordered(0x80_0000 * unit, n as int, unit);
    lemma_div_by_multiple(0x80_0000, unit);
    lemma_fundamental_div_mod(n as int, unit);
    if n as int / unit >= 0x100_0000 {
        lemma_mul_inequality(0x100_0000, n as int / unit, unit);
        lemma_mul_is_commutative(unit, n as int / unit);
    }
}

/// The significand of a conversion has its leading bit at `2^23`, or is
/// `2^24` after a carry; without rounding there is no carry.
pub proof fn lemma_nearest_significand_range(n: nat)
    requires
        n > 0,
    ensures
        0x80_0000 <= nearest_significand(n) <= 0x100_0000,
        floor_log2(n) <= 23 ==> nearest_significand(n) < 0x100_0000,
{
    lemma2_to64();
    let e = floor_log2(n);
    lemma_floor_log2_bracket(n);
    if e <= 23 {
        let up = (23 - e) as nat;
        lemma_pow2_pos(up);
        lemma_pow2_adds(e, up);
        lemma_pow2_adds(e + 1, up);
        lemma_mul_inequality(pow2(e) as int, n as int, pow2(up) as int);
        lemma_mul_strict_inequality(n as int, pow2(e + 1) as int, pow2(up) as int);
    } else {
        lemma_significand_range(n, e, (e - 23) as nat);
    }
}

/// The fields of the encoding put together from the exponent `e` and the
/// significand `m`, which may have carried into `2^24`.
proof fn lemma_encoding_fields(e: nat, m: nat)
    requires
        e < 32,
        0x80_0000 <= m <= 0x100_0000,
    ensures
        ({
            let r = Binary32 { bits: ((e + 127) * 0x80_0000 + (m - 0x80_0000)) as u32 };
            &&& r.bits == (e + 127) * 0x80_0000 + (m - 0x80_0000)
            &&& r.bits <= 0x4f80_0000
            &&& !r.is_negative()
            &&& m < 0x100_0000 ==> r.exponent() == e + 127 && r.significand() == m
            &&& m == 0x100_0000 ==> r.exponent() == e + 128 && r.significand() == 0x80_0000
        }),
{
    let raw = (e + 127) * 0x80_0000 + (m - 0x80_0000);
    if m < 0x100_0000 {
        lemma_fundamental_div_mod_converse(
            raw as int,
            0x80_0000,
            (e + 127) as int,
            (m - 0x80_0000) as int,
        );
    } else {
        lemma_fundamental_div_mod_converse(raw as int, 0x80_0000, (e + 128) as int, 0);
    }
}

/// The conversion of `n` is the encoding of a whole number: of `n` rounded
/// to the spacing that the format has at the magnitude of `n`. No conversion
/// is negative or exceeds the encoding of `2^32`.
pub proof fn lemma_of_u32_encodes(n: u32)
    ensures
        Binary32::of_u32(n).bits == nearest_bits(n as nat),
        Binary32::of_u32(n).bits <= 0x4f80_0000,
        Binary32::of_u32(n).encodes(nearest_whole(n as nat)),
{
    lemma2_to64();
    lemma2_to64_rest();
    if n > 0 {
        let e = floor_log2(n as nat);
        let m = nearest_significand(n as nat);
        let r = Binary32::of_u32(n);
        lemma_floor_log2_bracket(n as nat);
        if e >= 32 {
            lemma_pow2_strictly_increases(32, e);
        }
        lemma_nearest_significand_range(n as nat);
        lemma_encoding_fields(e, m);
        if e < 23 {
            assert((150 - r.exponent()) as nat == (23 - e) as nat);
        } else if e == 23 {
            assert(m == n * 1);
            assert(r.significand() * pow2(0) == m);
        } else {
            let k = (e - 23) as nat;
            lemma_pow2_pos(k);
            lemma_mul_strictly_positive(m as int, pow2(k) as int);
            if m == 0x100_0000 {
                lemma_pow2_unfold(k + 1);
                assert(0x80_0000 * (2 * pow2(k)) == 0x100_0000 * pow2(k)) by (nonlinear_arith);
                assert((r.exponent() - 150) as nat == k + 1);
            } else {
                assert((r.exponent() - 150) as nat == k);
            }
        }
    }
}

/// A whole number that 24 bits hold is converted without rounding.
pub proof fn lemma_nearest_whole_exact(n: nat)
    requires
        n < 0x100_0000,
    ensures
        nearest_whole(n) == n,
{
    lemma2_to64();
    if n > 0 {
        lemma_floor_log2_bracket(n);
        if floor_log2(n) >= 24 {
            lemma_pow2_strictly_increases(24, floor_log2(n));
        }
    }
}

/// Below `2^24` the conversion is exact: the encoding stands for `n` itself.
pub proof fn lemma_of_u32_exact(n: u32)
    requires
        n < 0x100_0000,
    ensures
        Binary32::of_u32(n).encodes(n as nat),
{
    lemma_of_u32_encodes(n);
    lemma_nearest_whole_exact(n as nat);
}

/// From `2^24` on the conversion rounds to the nearest multiple of the
/// spacing `2^(e - 23)`, where `e = floor_log2(n)`: the result is such a
/// multiple, it misses `n` by at most half the spacing, and where it misses
/// by exactly half, it is the even multiple of the two that are as near.
pub proof fn lemma_nearest_whole_rounds(n: nat)
    requires
        floor_log2(n) > 23,
    ensures
        ({
            let unit = pow2((floor_log2(n) - 23) as nat) as int;
            let multiple = div_pow2_nearest_even(n, (floor_log2(n) - 23) as nat) as int;
            &&& nearest_whole(n) == multiple * unit
            &&& 2 * (nearest_whole(n) - n) <= unit
            &&& 2 * (n - nearest_whole(n)) <= unit
            &&& (2 * (nearest_whole(n) - n) == unit || 2 * (n - nearest_whole(n)) == unit)
                ==> multiple % 2 == 0
        }),
{
    let k = (floor_log2(n) - 23) as nat;
    let unit = pow2(k) as int;
    let below = n as int / unit;
    lemma_pow2_pos(k);
    lemma_fundamental_div_mod(n as int, unit);
    lemma_mul_is_commutative(unit, below);
    lemma_mul_is_distributive_add_other_way(unit, below, 1);
}

/// Rounding to multiples of `2^k` keeps the order of what it rounds.
proof fn lemma_div_pow2_nearest_even_monotone(n: nat, m: nat, k: nat)
    requires
        n <= m,
    ensures
        div_pow2_nearest_even(n, k) <= div_pow2_nearest_even(m, k),
{
    let unit = pow2(k) as int;
    lemma_pow2_pos(k);
    lemma_div_is_ordered(n as int, m as int, unit);
    lemma_fundamental_div_mod(n as int, unit);
    lemma_fundamental_div_mod(m as int, unit);
}

/// The conversion keeps the order of the integers, in the encodings as they
/// are and so in the numbers they stand for: a greater integer never converts
/// to a lesser binary32.
pub proof fn lemma_nearest_bits_monotone(n: nat, m: nat)
    requires
        n <= m,
    ensures
        nearest_bits(n) <= nearest_bits(m),
{
    if n > 0 {
        let e = floor_log2(n);
        lemma_floor_log2_monotone(n, m);
        lemma_nearest_significand_range(n);
        lemma_nearest_significand_range(m);
        if e == floor_log2(m) {
            if e <= 23 {
                lemma_mul_inequality(n as int, m as int, pow2((23 - e) as nat) as int);
            } else {
                lemma_div_pow2_nearest_even_monotone(n, m, (e - 23) as nat);
            }
        }
    }
}

} // verus!
