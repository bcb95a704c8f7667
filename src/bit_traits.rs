//! Fixed-width unsigned values of 1 to 32 bits.
use vstd::prelude::*;
use vstd::arithmetic::power2::{pow2, lemma2_to64, lemma_pow2_pos, lemma_pow2_strictly_increases};
use vstd::bits::{lemma_u32_shr_is_div, lemma_u64_shl_is_mul};

verus! {

/// The value of a single bit.
pub open spec fn bit_value(b: bool) -> nat {
    if b {
        1
    } else {
        0
    }
}

/// The bits of a run of one-bit values.
pub open spec fn u1_bits(s: Seq<U1>) -> Seq<bool> {
    s.map_values(|b: U1| b@ == 1)
}

/// The smaller of two lengths.
pub open spec fn min_len(a: int, b: int) -> int {
    if a < b {
        a
    } else {
        b
    }
}

/// An unsigned value of `N` bits, `1 <= N <= 32`.
#[derive(Clone, Copy, Debug, Eq)]
pub struct UBits<const N: usize> {
    val: u32,
}

pub type U1 = UBits<1>;
pub type U2 = UBits<2>;
pub type U3 = UBits<3>;
pub type U4 = UBits<4>;
pub type U5 = UBits<5>;
pub type U6 = UBits<6>;
pub type U7 = UBits<7>;
pub type U8 = UBits<8>;
pub type U9 = UBits<9>;
pub type U10 = UBits<10>;
pub type U11 = UBits<11>;
pub type U12 = UBits<12>;
pub type U13 = UBits<13>;
pub type U14 = UBits<14>;
pub type U15 = UBits<15>;
pub type U16 = UBits<16>;
pub type U17 = UBits<17>;
pub type U18 = UBits<18>;
pub type U19 = UBits<19>;
pub type U20 = UBits<20>;
pub type U21 = UBits<21>;
pub type U22 = UBits<22>;
pub type U23 = UBits<23>;
pub type U24 = UBits<24>;
pub type U25 = UBits<25>;
pub type U26 = UBits<26>;
pub type U27 = UBits<27>;
pub type U28 = UBits<28>;
pub type U29 = UBits<29>;
pub type U30 = UBits<30>;
pub type U31 = UBits<31>;
pub type U32 = UBits<32>;

impl<const N: usize> View for UBits<N> {
    type V = nat;

    closed spec fn view(&self) -> nat {
        self.val as nat
    }
}

impl<const N: usize> PartialEq for UBits<N> {
    fn eq(&self, other: &Self) -> (r: bool) {
        self.val == other.val
    }
}

impl<const N: usize> vstd::std_specs::cmp::PartialEqSpecImpl for UBits<N> {
    open spec fn obeys_eq_spec() -> bool {
        true
    }

    open spec fn eq_spec(&self, other: &Self) -> bool {
        self@ == other@
    }
}

impl<const N: usize> UBits<N> {
    #[verifier::type_invariant]
    spec fn inv(&self) -> bool {
        1 <= N <= 32 && (self.val as nat) < pow2(N as nat)
    }

    /// The value as a 32-bit word.
    pub closed spec fn word(self) -> u32 {
        self.val
    }

    /// The word holds the value.
    pub proof fn lemma_word(self)
        ensures
            self@ == self.word(),
    {
    }

    /// The value `v`, which must be representable in `N` bits.
    pub fn new(v: u32) -> (r: Self)
        requires
            1 <= N <= 32,
            v < pow2(N as nat),
        ensures
            r@ == v,
    {
        UBits { val: v }
    }

    /// The value, as a `u32`.
    pub fn get(&self) -> (r: u32)
        ensures
            r == self@,
            r == self.word(),
            r < pow2(N as nat),
            1 <= N <= 32,
    {
        proof {
            use_type_invariant(self);
        }
        self.val
    }

    /// The value zero.
    pub fn zero() -> (r: Self)
        requires
            1 <= N <= 32,
        ensures
            r@ == 0,
    {
        proof {
            lemma_pow2_strictly_increases(0, N as nat);
            vstd::arithmetic::power2::lemma_pow2_pos(0);
        }
        UBits { val: 0 }
    }

    /// The value one.
    pub fn one() -> (r: Self)
        requires
            1 <= N <= 32,
        ensures
            r@ == 1,
    {
        proof {
            lemma2_to64();
            if N > 1 {
                lemma_pow2_strictly_increases(1, N as nat);
            }
        }
        UBits { val: 1 }
    }
}

impl<const N: usize> UBits<N> {
    /// The value shifted left by `k` bits; bits moved past the width are dropped.
    pub fn shl(self, k: u32) -> (r: Self)
        requires
            k < 32,
        ensures
            r@ == (self@ * pow2(k as nat)) % pow2(N as nat),
    {
        proof {
            use_type_invariant(self);
            lemma2_to64();
            lemma_pow2_strictly_increases(k as nat, 32);
            lemma_pow2_pos(k as nat);
            assert(self.val * pow2(k as nat) <= u64::MAX) by (nonlinear_arith)
                requires
                    self.val < 0x1_0000_0000,
                    pow2(k as nat) < 0x1_0000_0000,
            ;
            lemma_u64_shl_is_mul(self.val as u64, k as u64);
            lemma_u64_shl_is_mul(1u64, N as u64);
        }
        let wide: u64 = (self.val as u64) << (k as u64);
        let modulus: u64 = 1u64 << (N as u64);
        let low: u64 = wide % modulus;
        proof {
            if N < 32 {
                lemma_pow2_strictly_increases(N as nat, 32);
            }
        }
        UBits { val: low as u32 }
    }

    /// The value shifted right by `k` bits.
    pub fn shr(self, k: u32) -> (r: Self)
        requires
            k < 32,
        ensures
            r@ == self@ / pow2(k as nat),
    {
        proof {
            use_type_invariant(self);
            lemma_u32_shr_is_div(self.val, k);
            lemma_pow2_pos(k as nat);
        }
        UBits { val: self.val >> k }
    }

    /// The bitwise or of the two values.
    pub fn bitor(self, other: Self) -> (r: Self)
        ensures
            r.word() == self.word() | other.word(),
    {
        proof {
            use_type_invariant(self);
            use_type_invariant(other);
        }
        let a = self.val;
        let b = other.val;
        let c = a | b;
        proof {
            if N < 32 {
                let n = N as u32;
                lemma_u32_shr_is_div(a, n);
                lemma_u32_shr_is_div(b, n);
                lemma_u32_shr_is_div(c, n);
                lemma_pow2_pos(N as nat);
                vstd::arithmetic::div_mod::lemma_basic_div(a as int, pow2(N as nat) as int);
                vstd::arithmetic::div_mod::lemma_basic_div(b as int, pow2(N as nat) as int);
                assert((c >> n) == 0u32) by (bit_vector)
                    requires
                        (a >> n) == 0u32,
                        (b >> n) == 0u32,
                        c == a | b,
                ;
                vstd::arithmetic::div_mod::lemma_fundamental_div_mod(c as int, pow2(N as nat) as int);
                vstd::arithmetic::div_mod::lemma_mod_pos_bound(c as int, pow2(N as nat) as int);
            } else {
                lemma2_to64();
            }
        }
        UBits { val: c }
    }

    /// The bitwise and of the two values.
    pub fn bitand(self, other: Self) -> (r: Self)
        ensures
            r.word() == self.word() & other.word(),
    {
        proof {
            use_type_invariant(self);
            use_type_invariant(other);
        }
        let a = self.val;
        let b = other.val;
        let c = a & b;
        assert(c <= a) by (bit_vector)
            requires
                c == a & b,
        ;
        UBits { val: c }
    }

    /// The value of a single bit, at this width.
    pub fn from_u1(b: U1) -> (r: Self)
        requires
            1 <= N <= 32,
        ensures
            r@ == b@,
    {
        let v = b.get();
        proof {
            lemma2_to64();
            if N > 1 {
                lemma_pow2_strictly_increases(1, N as nat);
            }
        }
        UBits { val: v }
    }
}

/// The operations that every fixed-width value offers: its width, zero and one.
pub trait BitTraits: Sized {
    /// Whether the width is one that values can have.
    spec fn valid_width() -> bool;

    /// The width, in bits.
    spec fn width() -> nat;

    /// The value as a number.
    spec fn value_of(v: Self) -> nat;

    /// The width, in bits.
    fn bits() -> (r: usize)
        ensures
            r == Self::width(),
    ;

    /// The value zero.
    fn zero_value() -> (r: Self)
        requires
            Self::valid_width(),
        ensures
            Self::value_of(r) == 0,
    ;

    /// The value one.
    fn one_value() -> (r: Self)
        requires
            Self::valid_width(),
        ensures
            Self::value_of(r) == 1,
    ;
}

impl<const N: usize> BitTraits for UBits<N> {
    open spec fn valid_width() -> bool {
        1 <= N <= 32
    }

    open spec fn width() -> nat {
        N as nat
    }

    open spec fn value_of(v: Self) -> nat {
        v@
    }

    fn bits() -> (r: usize) {
        N
    }

    fn zero_value() -> (r: Self) {
        UBits::zero()
    }

    fn one_value() -> (r: Self) {
        UBits::one()
    }
}

impl U1 {
    /// The one-bit value of `b`.
    pub fn from_bool(b: bool) -> (r: U1)
        ensures
            r@ == bit_value(b),
    {
        proof {
            lemma2_to64();
        }
        if b {
            UBits { val: 1 }
        } else {
            UBits { val: 0 }
        }
    }

    /// Whether the bit is one.
    pub fn is_set(&self) -> (r: bool)
        ensures
            r == (self@ == 1),
            self@ == bit_value(r),
    {
        proof {
            use_type_invariant(self);
            lemma2_to64();
        }
        self.val == 1
    }
}

} // verus!
