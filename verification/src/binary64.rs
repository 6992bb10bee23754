//! IEEE 754 binary64 numbers, held by their bit patterns.
//!
//! A pattern has a sign bit, eleven exponent bits and fifty-two fraction bits.
//! Every finite binary64 number is a whole multiple of 2^-1074, the smallest
//! positive one, so a finite number is modelled by how many such units it
//! holds.

use vstd::prelude::*;
use vstd::arithmetic::power2::{
    lemma2_to64, lemma2_to64_rest, lemma_pow2_adds, lemma_pow2_pos, lemma_pow2_strictly_increases,
    lemma_pow2_unfold, pow2,
};

verus! {

/// The sign bit of a pattern: 2^63.
pub const SIGN_BIT: u64 = 0x8000_0000_0000_0000;

/// The lowest exponent bit of a pattern, and the leading bit that a normal
/// number's significand has beside its fraction: 2^52.
pub const HIDDEN_BIT: u64 = 0x0010_0000_0000_0000;

/// The pattern of positive infinity: every exponent bit set, no fraction bit.
pub const INFINITY_BITS: u64 = 0x7ff0_0000_0000_0000;

/// The exponent field of infinities and of patterns that are not numbers.
pub const EXPONENT_SPECIAL: u64 = 0x7ff;

/// How many units of 2^-1074 make one: 2^1074.
pub open spec fn units_per_one() -> nat {
    pow2(1074)
}

/// What a pattern stands for.
pub enum Value {
    /// Not a number.
    Nan,
    /// An infinity.
    Infinite { negative: bool },
    /// A finite number, as a count of units of 2^-1074. Both zeros count none.
    Finite { units: int },
}

impl Value {
    /// The whole number `n`.
    pub open spec fn whole(n: int) -> Value {
        Value::Finite { units: n * units_per_one() }
    }

    /// Whether the value equals zero.
    pub open spec fn is_zero(self) -> bool {
        self == Value::Finite { units: 0 }
    }

    /// Whether the value is less than or equal to zero. Nothing that is not a
    /// number is.
    pub open spec fn is_non_positive(self) -> bool {
        match self {
            Value::Nan => false,
            Value::Infinite { negative } => negative,
            Value::Finite { units } => units <= 0,
        }
    }
}

/// A binary64 number.
#[derive(Clone, Copy, Debug, PartialEq, Eq, Structural)]
pub struct Binary64 {
    pub bits: u64,
}

impl View for Binary64 {
    type V = Value;

    open spec fn view(&self) -> Value {
        self.value()
    }
}

impl Binary64 {
    /// Whether the sign bit is set.
    pub open spec fn sign_negative(self) -> bool {
        self.bits >= SIGN_BIT
    }

    /// The exponent field.
    pub open spec fn biased_exponent(self) -> nat {
        ((self.bits / HIDDEN_BIT) % 2048) as nat
    }

    /// The fraction field.
    pub open spec fn fraction(self) -> nat {
        (self.bits % HIDDEN_BIT) as nat
    }

    /// The absolute value of a finite pattern, in units of 2^-1074. With an
    /// exponent field of zero the fraction counts the units itself; otherwise
    /// the fraction gets its leading bit and is doubled once for each step of
    /// the exponent above one.
    pub open spec fn magnitude(self) -> nat {
        if self.biased_exponent() == 0 {
            self.fraction()
        } else {
            ((self.fraction() + HIDDEN_BIT) * pow2((self.biased_exponent() - 1) as nat)) as nat
        }
    }

    /// What the pattern stands for.
    pub open spec fn value(self) -> Value {
        if self.biased_exponent() == EXPONENT_SPECIAL {
            if self.fraction() == 0 {
                Value::Infinite { negative: self.sign_negative() }
            } else {
                Value::Nan
            }
        } else if self.sign_negative() {
            Value::Finite { units: -(self.magnitude() as int) }
        } else {
            Value::Finite { units: self.magnitude() as int }
        }
    }

    /// Whether the pattern is the whole number `n` with a clear sign bit.
    pub open spec fn is_whole(self, n: nat) -> bool {
        self@ == Value::whole(n as int) && !self.sign_negative()
    }

    /// The whole number `n` as a binary64 number: the one pattern with a clear
    /// sign bit that stands for it, where there is one. There is one for every
    /// `n` below 2^32.
    pub open spec fn whole(n: nat) -> Binary64 {
        choose|x: Binary64| x.is_whole(n)
    }

    /// The number with the given pattern.
    pub fn from_bits(bits: u64) -> (r: Binary64)
        ensures
            r.bits == bits,
    {
        Binary64 { bits }
    }

    /// The number's pattern.
    pub fn to_bits(self) -> (bits: u64)
        ensures
            bits == self.bits,
    {
        self.bits
    }

    /// Zero, with a clear sign bit.
    pub fn zero() -> (r: Binary64)
        ensures
            r == Binary64::whole(0),
            r.bits == 0,
    {
        let r = Binary64 { bits: 0 };
        proof {
            assert(0 * units_per_one() == 0);
            lemma_whole_is_unique(r, 0);
        }
        r
    }

    /// One.
    pub fn one() -> (r: Binary64)
        ensures
            r == Binary64::whole(1),
            r.bits == 0x3ff0_0000_0000_0000,
    {
        let r = Binary64 { bits: 0x3ff0_0000_0000_0000 };
        proof {
            // 2^52 units doubled 1022 times.
            lemma2_to64_rest();
            lemma_pow2_adds(52, 1022);
            assert(r.biased_exponent() == 1023);
            assert(r.fraction() == 0);
            lemma_whole_is_unique(r, 1);
        }
        r
    }

    /// One hundred.
    pub fn hundred() -> (r: Binary64)
        ensures
            r == Binary64::whole(100),
            r.bits == 0x4059_0000_0000_0000,
    {
        let r = Binary64 { bits: 0x4059_0000_0000_0000 };
        proof {
            // 25 * 2^48 units doubled 1028 times, and 25 * 2^(48 + 1028) is 100 * 2^1074.
            lemma2_to64();
            lemma2_to64_rest();
            lemma_pow2_adds(48, 1028);
            lemma_pow2_adds(2, 1074);
            assert(r.biased_exponent() == 1029);
            assert(r.fraction() == 0x9_0000_0000_0000);
            let doublings = pow2(1028);
            assert((25 * 0x1_0000_0000_0000) * doublings == 25 * (0x1_0000_0000_0000 * doublings))
                by (nonlinear_arith);
            lemma_whole_is_unique(r, 100);
        }
        r
    }

    /// The whole number `n`, which binary64 holds exactly.
    pub fn from_u32(n: u32) -> (r: Binary64)
        ensures
            r == Binary64::whole(n as nat),
            r.is_whole(n as nat),
    {
        if n == 0 {
            return Binary64::zero();
        }
        // The number is significand * 2^(exponent - 1075) all along.
        let mut significand: u64 = n as u64;
        let mut exponent: u64 = 1075;
        let ghost mut doublings: nat = 0;
        proof {
            lemma2_to64();
        }
        while significand < HIDDEN_BIT
            invariant
                doublings <= 52,
                exponent + doublings == 1075,
                pow2(doublings) <= significand < 2 * HIDDEN_BIT,
                significand * pow2((exponent - 1) as nat) == n * units_per_one(),
            decreases exponent,
        {
            proof {
                lemma_doubling_bounded(doublings, significand as nat);
                lemma_pow2_unfold(doublings + 1);
                lemma_pow2_unfold((exponent - 1) as nat);
                let lower = pow2((exponent - 2) as nat);
                assert((2 * significand) * lower == significand * (2 * lower)) by (nonlinear_arith);
            }
            significand = 2 * significand;
            exponent = exponent - 1;
            proof {
                doublings = doublings + 1;
            }
        }
        let r = Binary64 { bits: exponent * HIDDEN_BIT + (significand - HIDDEN_BIT) };
        proof {
            assert(r.biased_exponent() == exponent);
            assert(r.fraction() == significand - HIDDEN_BIT);
            lemma_whole_is_unique(r, n as nat);
        }
        r
    }

    /// Whether the number equals zero; negative zero does.
    pub fn is_zero(self) -> (r: bool)
        ensures
            r == self@.is_zero(),
    {
        proof {
            lemma_magnitude_positive(self);
        }
        self.bits == 0 || self.bits == SIGN_BIT
    }

    /// Whether the number is less than or equal to zero.
    pub fn is_non_positive(self) -> (r: bool)
        ensures
            r == self@.is_non_positive(),
    {
        proof {
            lemma_magnitude_positive(self);
        }
        let magnitude_bits: u64 = if self.bits >= SIGN_BIT {
            self.bits - SIGN_BIT
        } else {
            self.bits
        };
        if magnitude_bits > INFINITY_BITS {
            false
        } else {
            self.bits >= SIGN_BIT || magnitude_bits == 0
        }
    }
}

/// A finite pattern counts no unit only where its exponent and fraction fields
/// are both zero.
pub proof fn lemma_magnitude_positive(x: Binary64)
    ensures
        x.magnitude() == 0 <==> x.biased_exponent() == 0 && x.fraction() == 0,
{
    if x.biased_exponent() != 0 {
        let doublings = pow2((x.biased_exponent() - 1) as nat);
        let significand = x.fraction() + HIDDEN_BIT;
        lemma_pow2_pos((x.biased_exponent() - 1) as nat);
        assert(significand * doublings > 0) by (nonlinear_arith)
            requires
                significand > 0,
                doublings > 0,
        ;
    }
}

/// No two patterns of one sign stand for the same finite number.
pub proof fn lemma_finite_is_unique(x: Binary64, y: Binary64)
    requires
        x@ is Finite,
        x@ == y@,
        x.sign_negative() == y.sign_negative(),
    ensures
        x == y,
{
    assert(x.magnitude() == y.magnitude());
    lemma_magnitude_bounds(x);
    lemma_magnitude_bounds(y);
    let ex = x.biased_exponent();
    let ey = y.biased_exponent();
    if ex < ey {
        lemma_band_increases(ex + 1, ey);
    } else if ey < ex {
        lemma_band_increases(ey + 1, ex);
    } else if ex != 0 {
        let doublings = pow2((ex - 1) as nat);
        let sx = x.fraction() + HIDDEN_BIT;
        let sy = y.fraction() + HIDDEN_BIT;
        lemma_pow2_pos((ex - 1) as nat);
        assert(sx == sy) by (nonlinear_arith)
            requires
                sx * doublings == sy * doublings,
                doublings > 0,
        ;
    }
    assert(x.fraction() == y.fraction());
    assert(x.bits == y.bits);
}

/// The least number of units that a pattern with the exponent field `e` holds,
/// for `e` of one or more: 2^52 doubled `e - 1` times.
spec fn band(e: nat) -> nat {
    HIDDEN_BIT as nat * pow2((e - 1) as nat)
}

/// A finite pattern's units lie in the band of its exponent field: from that
/// band's start to short of the next one's. With an exponent field of zero
/// they lie short of the first band.
proof fn lemma_magnitude_bounds(x: Binary64)
    ensures
        x.biased_exponent() > 0 ==> band(x.biased_exponent()) <= x.magnitude(),
        x.magnitude() < band(x.biased_exponent() + 1),
{
    let e = x.biased_exponent();
    let f = x.fraction();
    lemma2_to64();
    if e == 0 {
        assert(band(1) == HIDDEN_BIT as nat * 1);
    } else {
        let doublings = pow2((e - 1) as nat);
        lemma_pow2_unfold(e);
        lemma_pow2_pos((e - 1) as nat);
        assert(HIDDEN_BIT * doublings <= (f + HIDDEN_BIT) * doublings < HIDDEN_BIT * (2
            * doublings)) by (nonlinear_arith)
            requires
                0 <= f < HIDDEN_BIT,
                doublings > 0,
        ;
    }
}

/// Bands do not overlap: a later one starts no lower.
proof fn lemma_band_increases(e1: nat, e2: nat)
    requires
        1 <= e1 <= e2,
    ensures
        band(e1) <= band(e2),
{
    if e1 < e2 {
        lemma_pow2_strictly_increases((e1 - 1) as nat, (e2 - 1) as nat);
    }
    let earlier = pow2((e1 - 1) as nat);
    let later = pow2((e2 - 1) as nat);
    assert(HIDDEN_BIT * earlier <= HIDDEN_BIT * later) by (nonlinear_arith)
        requires
            earlier <= later,
    ;
}

/// The pattern that is the whole number `n` is the whole number `n`.
pub proof fn lemma_whole_is_unique(x: Binary64, n: nat)
    requires
        x.is_whole(n),
    ensures
        x == Binary64::whole(n),
{
    lemma_finite_is_unique(x, Binary64::whole(n));
}

/// A significand below 2^52 that has been doubled `doublings` times has been
/// doubled fewer than fifty-two times.
proof fn lemma_doubling_bounded(doublings: nat, significand: nat)
    requires
        pow2(doublings) <= significand < HIDDEN_BIT,
    ensures
        doublings < 52,
{
    lemma2_to64_rest();
    if doublings > 52 {
        lemma_pow2_strictly_increases(52, doublings);
    }
}

} // verus!
