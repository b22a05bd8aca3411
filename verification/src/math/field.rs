//! Arithmetic in the prime field of order `2^128 - 45 * 2^40 + 1`.
//!
//! A field element is held in a `u128`. Every operation accepts any `u128`
//! and returns the canonical representative, below the modulus, of the
//! exact result.

use vstd::arithmetic::div_mod::*;
use vstd::arithmetic::mul::*;
use vstd::arithmetic::power::*;
use vstd::prelude::*;

verus! {

/// The field modulus, `2^128 - 45 * 2^40 + 1`.
pub const M: u128 = 340282366920938463463374557953744961537;

/// The additive identity.
pub const ZERO: u128 = 0;

/// The multiplicative identity.
pub const ONE: u128 = 1;

/// `2^64`, the radix of the limbs that `mul` works on.
const LIMB: u128 = 0x1_0000_0000_0000_0000;

/// `2^128 - M`: what `2^128` is congruent to.
const FOLD: u128 = 49478023249919;

/// The modulus as a mathematical integer.
#[verifier::inline]
pub open spec fn modulus() -> int {
    M as int
}

/// Whether `v` is the canonical representative of a field element.
pub open spec fn is_element(v: int) -> bool {
    0 <= v < modulus()
}

/// The sum of `a` and `b` in the field.
pub open spec fn sum(a: int, b: int) -> int {
    (a + b) % modulus()
}

/// The product of `a` and `b` in the field.
pub open spec fn product(a: int, b: int) -> int {
    (a * b) % modulus()
}

/// `b` raised to the power `e` in the field; the empty product is one.
pub open spec fn power(b: int, e: nat) -> int {
    pow(b, e) % modulus()
}

/// The values that a run of machine words holds, as mathematical integers.
pub open spec fn elements(words: Seq<u128>) -> Seq<int> {
    Seq::new(words.len(), |i: int| words[i] as int)
}

/// Adds two field elements.
pub fn add(a: u128, b: u128) -> (r: u128)
    ensures
        r == sum(a as int, b as int),
        r < M,
{
    let x: u128 = a % M;
    let y: u128 = b % M;
    let z: u128 = M - y;
    proof {
        lemma_add_mod_noop(a as int, b as int, M as int);
        if x < z {
            lemma_small_mod((x + y) as nat, M as nat);
        } else {
            lemma_mod_sub_multiples_vanish(x + y, M as int);
            lemma_small_mod((x + y - M) as nat, M as nat);
        }
    }
    if x < z {
        x + y
    } else {
        x - z
    }
}

/// The exact product of `a` and `b` as a pair of 128-bit halves.
fn widening_mul(a: u128, b: u128) -> (r: (u128, u128))
    ensures
        r.0 * 0x1_0000_0000_0000_0000_0000_0000_0000_0000 + r.1 == a * b,
{
    let a0: u128 = a % LIMB;
    let a1: u128 = a / LIMB;
    let b0: u128 = b % LIMB;
    let b1: u128 = b / LIMB;
    proof {
        lemma_limb_product(a0, b0);
        lemma_limb_product(a0, b1);
        lemma_limb_product(a1, b0);
        lemma_limb_product(a1, b1);
    }
    let p00: u128 = a0 * b0;
    let p01: u128 = a0 * b1;
    let p10: u128 = a1 * b0;
    let p11: u128 = a1 * b1;
    let mid: u128 = p00 / LIMB + p01 % LIMB + p10 % LIMB;
    let lo: u128 = p00 % LIMB + (mid % LIMB) * LIMB;
    let hi: u128 = p11 + p01 / LIMB + p10 / LIMB + mid / LIMB;
    proof {
        assert((a1 * LIMB + a0) * (b1 * LIMB + b0) == (a1 * b1) * (LIMB * LIMB) + (a0 * b1 + a1
            * b0) * LIMB + a0 * b0) by (nonlinear_arith);
        assert(a * b == p11 * 0x1_0000_0000_0000_0000_0000_0000_0000_0000 + (p01 + p10)
            * 0x1_0000_0000_0000_0000 + p00);
    }
    (hi, lo)
}

/// Two limbs multiply without leaving 128 bits.
proof fn lemma_limb_product(x: u128, y: u128)
    requires
        x < LIMB,
        y < LIMB,
    ensures
        x * y <= 0xffff_ffff_ffff_fffe_0000_0000_0000_0001,
{
    assert(x * y <= (LIMB - 1) * (LIMB - 1)) by (nonlinear_arith)
        requires
            0 <= x <= LIMB - 1,
            0 <= y <= LIMB - 1,
    ;
}

/// Multiplies two field elements.
pub fn mul(a: u128, b: u128) -> (r: u128)
    ensures
        r == product(a as int, b as int),
        r < M,
{
    let (hi, lo) = widening_mul(a, b);
    // 2^128 is congruent to FOLD, so the high half folds into the low one.
    let h0: u128 = hi % LIMB;
    let h1: u128 = hi / LIMB;
    let h0c: u128 = h0 * FOLD;
    let h1c: u128 = h1 * FOLD;
    let t0: u128 = h1c % LIMB;
    let t1: u128 = h1c / LIMB;
    let low: u128 = h0c + t1 * FOLD;
    let high: u128 = t0 * LIMB;
    let r: u128 = self::add(self::add(lo, low), high);
    proof {
        let folded = lo + low + high;
        assert(a * b == (h0 + h1 * LIMB + t1) * M + folded);
        lemma_mod_multiples_vanish(h0 + h1 * LIMB + t1, folded, M as int);
        lemma_add_mod_noop(lo + low, high as int, M as int);
        lemma_mod_twice(lo + low, M as int);
    }
    r
}

/// One step of square-and-multiply keeps `r * base^e` unchanged in the field.
proof fn lemma_exp_step(r: int, base: int, e: nat, r2: int, base2: int)
    requires
        e > 0,
        base2 == (base * base) % modulus(),
        r2 == if e % 2 == 1 {
            (r * base) % modulus()
        } else {
            r
        },
    ensures
        (r2 * pow(base2, e / 2)) % modulus() == (r * pow(base, e)) % modulus(),
{
    let m = modulus();
    let q = e / 2;
    let sq = pow(base * base, q);
    // base^e splits into (base^2)^q and the bit that the division dropped.
    assert(pow(base, 2 * q) == sq) by {
        lemma_square_is_pow2(base);
        lemma_pow_multiplies(base, 2, q);
    }
    assert((r2 * pow(base2, q)) % m == (r2 * sq) % m) by {
        lemma_pow_mod_noop(base * base, q, m);
        lemma_mul_mod_noop_right(r2, pow(base2, q), m);
        lemma_mul_mod_noop_right(r2, sq, m);
    }
    if e % 2 == 1 {
        assert(pow(base, e) == base * sq) by {
            lemma_pow_adds(base, 1, 2 * q);
            lemma_pow1(base);
        }
        assert((r2 * sq) % m == ((r * base) * sq) % m) by {
            lemma_mul_mod_noop_left(r * base, sq, m);
        }
        assert((r * base) * sq == r * (base * sq)) by {
            lemma_mul_is_associative(r, base, sq);
        }
    } else {
        assert(e == 2 * q);
    }
}

/// Raises a field element to a power.
pub fn exp(b: u128, p: u128) -> (r: u128)
    ensures
        r == power(b as int, p as nat),
        r < M,
{
    let mut r: u128 = ONE;
    let mut base: u128 = b % M;
    let mut e: u128 = p;
    proof {
        lemma_pow_mod_noop(b as int, p as nat, M as int);
        lemma_mul_basics(pow(base as int, e as nat));
    }
    while e > 0
        invariant
            r < M,
            (r * pow(base as int, e as nat)) % modulus() == power(b as int, p as nat),
        decreases e,
    {
        let ghost r0 = r;
        let ghost base0 = base;
        if e % 2 == 1 {
            r = self::mul(r, base);
        }
        base = self::mul(base, base);
        proof {
            lemma_exp_step(r0 as int, base0 as int, e as nat, r as int, base as int);
        }
        e = e / 2;
    }
    proof {
        lemma_pow0(base as int);
        lemma_small_mod(r as nat, M as nat);
    }
    r
}

} // verus!
