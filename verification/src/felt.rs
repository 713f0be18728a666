//! Field elements of the target machine's prime field.
//!
//! The field has modulus `M = 2^64 - 2^32 + 1`. Every element is kept in
//! canonical form, as the least non-negative residue, so structural equality
//! of elements coincides with equality in the field.

use vstd::arithmetic::div_mod::{
    lemma_mod_add_multiples_vanish, lemma_mod_bound, lemma_mod_self_0, lemma_mul_mod_noop_general,
    lemma_small_mod,
};
use vstd::arithmetic::power::{
    lemma_pow0, lemma_pow1, lemma_pow_adds, lemma_pow_mod_noop, lemma_pow_multiplies,
    lemma_square_is_pow2, pow,
};
use vstd::arithmetic::power2::{lemma2_to64, lemma2_to64_rest, lemma_pow2, lemma_pow2_strictly_increases, pow2};
use vstd::bits::lemma_u64_shl_is_mul;
use vstd::prelude::*;

verus! {

/// The field modulus, `2^64 - 2^32 + 1`.
pub const FELT_MODULUS: u64 = 0xffff_ffff_0000_0001;

/// The error produced when an integer is too large to name a field element.
#[derive(Clone, Copy, PartialEq, Eq, Structural, Debug)]
pub enum FeltError {
    InvalidValue,
}

/// An element of the prime field with modulus [`FELT_MODULUS`], stored as its
/// canonical residue. The view of an element is that residue.
#[derive(Clone, Copy, PartialEq, Eq, Structural, Hash, Ord, Debug)]
pub struct Felt {
    value: u64,
}

impl View for Felt {
    type V = u64;

    closed spec fn view(&self) -> u64 {
        self.value
    }
}

/// The residue of the multiplicative inverse of `x`: by Fermat's little
/// theorem, `x^(M - 2)` is the inverse of `x` in the field when `x != 0`.
pub open spec fn felt_inv_spec(x: int) -> int {
    pow(x, (FELT_MODULUS - 2) as nat) % (FELT_MODULUS as int)
}

impl Felt {
    #[verifier::type_invariant]
    spec fn canonical(self) -> bool {
        self.value < FELT_MODULUS
    }

    /// Converts an integer to a field element, reducing it by the modulus.
    pub fn from_u64_unchecked(value: u64) -> (r: Felt)
        ensures
            r@ == value % FELT_MODULUS,
    {
        proof {
            lemma_mod_bound(value as int, FELT_MODULUS as int);
        }
        Felt { value: value % FELT_MODULUS }
    }

    /// Converts an integer to a field element, rejecting values above the
    /// modulus. The modulus itself is accepted and reduces to zero.
    pub fn new(value: u64) -> (r: Result<Felt, FeltError>)
        ensures
            value <= FELT_MODULUS ==> (r matches Ok(f) && f@ == value % FELT_MODULUS),
            value > FELT_MODULUS ==> r matches Err(FeltError::InvalidValue),
    {
        if value > FELT_MODULUS {
            Err(FeltError::InvalidValue)
        } else {
            Ok(Self::from_u64_unchecked(value))
        }
    }

    /// The canonical residue of this element.
    pub fn as_u64(self) -> (r: u64)
        ensures
            r == self@,
    {
        self.value
    }

    /// Whether the canonical residue of this element is odd.
    pub fn is_odd(self) -> (r: bool)
        ensures
            r == (self@ % 2 == 1),
    {
        self.value % 2 == 1
    }

    /// Field addition.
    pub fn add(self, other: Felt) -> (r: Felt)
        ensures
            r@ == (self@ + other@) % (FELT_MODULUS as int),
    {
        proof {
            use_type_invariant(self);
            use_type_invariant(other);
            lemma_mod_bound(self@ + other@, FELT_MODULUS as int);
        }
        let sum = self.value as u128 + other.value as u128;
        Felt { value: (sum % (FELT_MODULUS as u128)) as u64 }
    }

    /// Field subtraction.
    pub fn sub(self, other: Felt) -> (r: Felt)
        ensures
            r@ == (self@ - other@) % (FELT_MODULUS as int),
    {
        proof {
            use_type_invariant(self);
            use_type_invariant(other);
            lemma_mod_add_multiples_vanish(self@ - other@, FELT_MODULUS as int);
            lemma_mod_bound(self@ - other@, FELT_MODULUS as int);
        }
        let diff = self.value as u128 + FELT_MODULUS as u128 - other.value as u128;
        Felt { value: (diff % (FELT_MODULUS as u128)) as u64 }
    }

    /// Field multiplication.
    pub fn mul(self, other: Felt) -> (r: Felt)
        ensures
            r@ == (self@ * other@) % (FELT_MODULUS as int),
    {
        proof {
            use_type_invariant(self);
            use_type_invariant(other);
            assert((self@ as int) * (other@ as int) <= (u64::MAX as int) * (u64::MAX as int))
                by (nonlinear_arith)
                requires
                    self@ <= u64::MAX,
                    other@ <= u64::MAX,
            ;
            assert((u64::MAX as int) * (u64::MAX as int) < u128::MAX as int) by (nonlinear_arith);
            lemma_mod_bound(self@ * other@, FELT_MODULUS as int);
        }
        let prod = self.value as u128 * other.value as u128;
        Felt { value: (prod % (FELT_MODULUS as u128)) as u64 }
    }

    /// In-place field addition.
    pub fn add_assign(&mut self, other: Felt)
        ensures
            final(self)@ == (old(self)@ + other@) % (FELT_MODULUS as int),
    {
        *self = self.add(other);
    }

    /// In-place field subtraction.
    pub fn sub_assign(&mut self, other: Felt)
        ensures
            final(self)@ == (old(self)@ - other@) % (FELT_MODULUS as int),
    {
        *self = self.sub(other);
    }

    /// In-place field multiplication.
    pub fn mul_assign(&mut self, other: Felt)
        ensures
            final(self)@ == (old(self)@ * other@) % (FELT_MODULUS as int),
    {
        *self = self.mul(other);
    }

    /// In-place field division. The divisor must be non-zero.
    pub fn div_assign(&mut self, other: Felt)
        requires
            other@ != 0,
        ensures
            final(self)@ == (old(self)@ * felt_inv_spec(other@ as int)) % (FELT_MODULUS as int),
    {
        *self = self.div(other);
    }

    /// The additive inverse.
    pub fn neg(self) -> (r: Felt)
        ensures
            r@ == (FELT_MODULUS - self@) % (FELT_MODULUS as int),
    {
        proof {
            use_type_invariant(self);
            if self@ == 0 {
                lemma_mod_self_0(FELT_MODULUS as int);
            } else {
                lemma_small_mod((FELT_MODULUS - self@) as nat, FELT_MODULUS as nat);
            }
        }
        if self.value == 0 {
            self
        } else {
            Felt { value: FELT_MODULUS - self.value }
        }
    }

    /// Field exponentiation: `self` raised to the canonical residue of
    /// `other`, by binary square-and-multiply.
    pub fn exp(self, other: Felt) -> (r: Felt)
        ensures
            r@ == pow(self@ as int, other@ as nat) % (FELT_MODULUS as int),
    {
        proof {
            use_type_invariant(self);
            use_type_invariant(other);
        }
        let ghost a0 = self@ as int;
        let ghost e0 = other@ as nat;
        let mut base = self;
        let mut e: u64 = other.value;
        let mut acc = Felt { value: 1 };
        while e > 0
            invariant
                (acc@ as int * pow(base@ as int, e as nat)) % (FELT_MODULUS as int) == pow(
                    a0,
                    e0,
                ) % (FELT_MODULUS as int),
            decreases e,
        {
            let ghost a_before = acc@ as int;
            let ghost b_before = base@ as int;
            let ghost e_before = e as nat;
            if e % 2 == 1 {
                acc = acc.mul(base);
            }
            base = base.mul(base);
            e = e / 2;
            proof {
                lemma_square_multiply_step(a_before, b_before, e_before, FELT_MODULUS as int);
                if e_before % 2 == 1 {
                    lemma_mul_mod_noop_general(
                        a_before * b_before,
                        pow(base@ as int, e as nat),
                        FELT_MODULUS as int,
                    );
                }
            }
        }
        proof {
            use_type_invariant(acc);
            lemma_pow0(base@ as int);
            lemma_small_mod(acc@ as nat, FELT_MODULUS as nat);
        }
        acc
    }

    /// Two raised to the canonical residue of `self`, which must be at
    /// most 63.
    pub fn pow2(self) -> (r: Felt)
        requires
            self@ <= 63,
        ensures
            r@ == pow(2, self@ as nat),
    {
        proof {
            use_type_invariant(self);
            lemma2_to64();
            lemma2_to64_rest();
            if self@ < 63 {
                lemma_pow2_strictly_increases(self@ as nat, 63);
            }
            lemma_pow2_strictly_increases(self@ as nat, 64);
            lemma_pow2(self@ as nat);
            lemma_u64_shl_is_mul(1u64, self.value);
        }
        Felt { value: 1u64 << self.value }
    }

    /// The multiplicative inverse, computed as `self^(M - 2)`; by Fermat's
    /// little theorem this is the inverse in the field. Must not be called
    /// on zero.
    pub fn inv(self) -> (r: Felt)
        requires
            self@ != 0,
        ensures
            r@ == felt_inv_spec(self@ as int),
    {
        self.exp(Felt { value: FELT_MODULUS - 2 })
    }

    /// Field division: multiplication by the divisor's inverse. The divisor
    /// must be non-zero.
    pub fn div(self, other: Felt) -> (r: Felt)
        requires
            other@ != 0,
        ensures
            r@ == (self@ * felt_inv_spec(other@ as int)) % (FELT_MODULUS as int),
    {
        self.mul(other.inv())
    }
}

/// One step of binary square-and-multiply: halving the exponent and squaring
/// the base (reduced by `m`) preserves the running product's residue.
proof fn lemma_square_multiply_step(a: int, b: int, e: nat, m: int)
    requires
        m > 0,
    ensures
        e % 2 == 1 ==> (((a * b) % m) * pow((b * b) % m, (e / 2) as nat)) % m == (a * pow(b, e))
            % m,
        e % 2 == 0 ==> (a * pow((b * b) % m, (e / 2) as nat)) % m == (a * pow(b, e)) % m,
{
    let k = (e / 2) as nat;
    let p = pow((b * b) % m, k);
    lemma_pow_mod_noop(b * b, k, m);
    lemma_square_is_pow2(b);
    lemma_pow_multiplies(b, 2, k);
    assert(pow(b * b, k) == pow(b, 2 * k));
    if e % 2 == 1 {
        assert(e == 2 * k + 1);
        lemma_pow1(b);
        lemma_pow_adds(b, 1, 2 * k);
        assert(pow(b, e) == b * pow(b, 2 * k));
        // ((a*b)%m * p) % m == ((a*b) * p) % m
        lemma_mul_mod_noop_general(a * b, p, m);
        // ((a*b) * p) % m == ((a*b) * (p%m)) % m, and p % m == pow(b*b, k) % m
        lemma_mul_mod_noop_general(a * b, p % m, m);
        lemma_mul_mod_noop_general(a * b, pow(b * b, k), m);
        assert(((a * b) * p) % m == ((a * b) * pow(b * b, k)) % m);
        assert((a * b) * pow(b, 2 * k) == a * (b * pow(b, 2 * k))) by (nonlinear_arith);
        assert((((a * b) % m) * p) % m == (a * pow(b, e)) % m);
    } else {
        assert(e == 2 * k);
        lemma_mul_mod_noop_general(a, p, m);
        lemma_mul_mod_noop_general(a, p % m, m);
        lemma_mul_mod_noop_general(a, pow(b * b, k), m);
        assert((a * p) % m == (a * pow(b * b, k)) % m);
    }
}

impl Felt {
    /// Embeds a 32-bit integer in the field; every such integer is below the
    /// modulus, so the embedding is exact.
    pub fn from_u32(value: u32) -> (r: Felt)
        ensures
            r@ == value,
    {
        Felt { value: value as u64 }
    }

    /// Embeds a 16-bit integer in the field, exactly.
    pub fn from_u16(value: u16) -> (r: Felt)
        ensures
            r@ == value,
    {
        Felt { value: value as u64 }
    }

    /// Embeds an 8-bit integer in the field, exactly.
    pub fn from_u8(value: u8) -> (r: Felt)
        ensures
            r@ == value,
    {
        Felt { value: value as u64 }
    }
}

impl PartialOrd for Felt {
    /// Elements are ordered by their canonical residues.
    fn partial_cmp(&self, other: &Self) -> (r: Option<core::cmp::Ordering>) {
        if self.value < other.value {
            Some(core::cmp::Ordering::Less)
        } else if self.value > other.value {
            Some(core::cmp::Ordering::Greater)
        } else {
            Some(core::cmp::Ordering::Equal)
        }
    }
}

impl vstd::std_specs::cmp::PartialOrdSpecImpl for Felt {
    open spec fn obeys_partial_cmp_spec() -> bool {
        true
    }

    open spec fn partial_cmp_spec(&self, other: &Felt) -> Option<core::cmp::Ordering> {
        if self@ < other@ {
            Some(core::cmp::Ordering::Less)
        } else if self@ > other@ {
            Some(core::cmp::Ordering::Greater)
        } else {
            Some(core::cmp::Ordering::Equal)
        }
    }
}

/// The target machine traps unless the operand is one; callers must
/// establish that before asserting.
pub fn felt_assert(a: Felt)
    requires
        a@ == 1,
{
}

/// The target machine traps unless the operand is zero.
pub fn felt_assertz(a: Felt)
    requires
        a@ == 0,
{
}

/// The target machine traps unless the operands are equal.
pub fn felt_assert_eq(a: Felt, b: Felt)
    requires
        a@ == b@,
{
}

} // verus!
