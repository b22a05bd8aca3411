//! The wire form of field elements: each element is a block of sixteen
//! bytes, least significant byte first, and a run of elements is the
//! concatenation of their blocks.

pub mod hasher;

use crate::math::field::elements;
use vstd::arithmetic::div_mod::*;
use vstd::arithmetic::power::*;
use vstd::prelude::*;

verus! {

/// Number of bytes in the block of one element.
pub const ELEMENT_BYTES: usize = 16;

/// Byte `i` of `bytes`, reading zero past the end.
pub open spec fn byte_at(bytes: Seq<u8>, i: int) -> int {
    if 0 <= i < bytes.len() {
        bytes[i] as int
    } else {
        0
    }
}

/// The number that the `n` bytes from `start` on spell, least significant
/// byte first, with `bytes` extended by zeros.
pub open spec fn le_word(bytes: Seq<u8>, start: int, n: nat) -> int
    decreases n,
{
    if n == 0 {
        0
    } else {
        byte_at(bytes, start) + 256 * le_word(bytes, start + 1, (n - 1) as nat)
    }
}

/// Byte `k` of `v`, counted from the least significant one.
pub open spec fn le_byte(v: int, k: nat) -> u8 {
    ((v / pow(256, k)) % 256) as u8
}

/// The blocks of `values`, one after the other.
pub open spec fn le_bytes(values: Seq<int>) -> Seq<u8> {
    Seq::new(16 * values.len(), |i: int| le_byte(values[i / 16], (i % 16) as nat))
}

/// A word of `n` bytes is below `256^n`.
pub proof fn lemma_le_word_bound(bytes: Seq<u8>, start: int, n: nat)
    ensures
        0 <= le_word(bytes, start, n) < pow(256, n),
    decreases n,
{
    reveal(pow);
    if n > 0 {
        lemma_le_word_bound(bytes, start + 1, (n - 1) as nat);
    }
}

/// Bytes that are the digits of `v` to the base 256 spell `v`, up to the
/// `n` digits that the word has room for.
proof fn lemma_word_of_digits(bytes: Seq<u8>, start: int, n: nat, v: int)
    requires
        0 <= v,
        forall|k: int| 0 <= k < n ==> byte_at(bytes, start + k) == #[trigger] le_byte(v, k as nat),
    ensures
        le_word(bytes, start, n) == v % pow(256, n),
    decreases n,
{
    reveal(pow);
    if n > 0 {
        let m = (n - 1) as nat;
        assert forall|k: int| 0 <= k < m implies byte_at(bytes, start + 1 + k) == #[trigger] le_byte(
            v / 256,
            k as nat,
        ) by {
            assert(byte_at(bytes, start + (k + 1)) == le_byte(v, (k + 1) as nat));
            lemma_pow_positive(256, k as nat);
            lemma_div_denominator(v, 256, pow(256, k as nat));
        }
        lemma_word_of_digits(bytes, start + 1, m, v / 256);
        let first: int = 0;
        assert(byte_at(bytes, start + first) == le_byte(v, first as nat));
        lemma_pow_positive(256, m);
        lemma_mod_breakdown(v, 256, pow(256, m));
    }
}

/// Reading block `i` of the wire form of `values` gives `values[i]` back.
pub proof fn lemma_word_of_bytes(values: Seq<int>, i: int)
    requires
        0 <= i < values.len(),
        0 <= values[i] <= u128::MAX,
    ensures
        le_word(le_bytes(values), 16 * i, 16) == values[i],
{
    let bytes = le_bytes(values);
    let v = values[i];
    assert forall|k: int| 0 <= k < 16 implies byte_at(bytes, 16 * i + k) == #[trigger] le_byte(
        v,
        k as nat,
    ) by {
        assert(bytes[16 * i + k] == le_byte(values[(16 * i + k) / 16], ((16 * i + k) % 16) as nat));
    }
    lemma_word_of_digits(bytes, 16 * i, 16, v);
    lemma_pow256_15();
    reveal_with_fuel(pow, 2);
    lemma_small_mod(v as nat, pow(256, 16) as nat);
}

/// Reads element `index` of a buffer; bytes past its end count as zero.
pub fn element_from_bytes(bytes: &[u8], index: usize) -> (r: u128)
    requires
        16 * index + 16 <= usize::MAX,
    ensures
        r == le_word(bytes@, 16 * index, 16),
{
    let start: usize = 16 * index;
    let mut acc: u128 = 0;
    let mut k: usize = 16;
    while k > 0
        invariant
            k <= 16,
            start + 16 <= usize::MAX,
            acc == le_word(bytes@, start + k, (16 - k) as nat),
        decreases k,
    {
        k -= 1;
        let b: u8 = if start + k < bytes.len() {
            bytes[start + k]
        } else {
            0
        };
        proof {
            lemma_le_word_bound(bytes@, start + k + 1, (15 - k) as nat);
            lemma_pow_increases(256, (15 - k) as nat, 15);
            lemma_pow256_15();
        }
        acc = acc * 256 + b as u128;
    }
    acc
}

/// `256^15` is `2^120`.
proof fn lemma_pow256_15()
    ensures
        pow(256, 15) == 0x1_0000_0000_0000_0000_0000_0000_0000_00,
{
    reveal_with_fuel(pow, 16);
}

/// The sixteen bytes of the block of `value`.
pub fn element_to_bytes(value: u128) -> (r: [u8; 16])
    ensures
        forall|k: int| 0 <= k < 16 ==> r[k] == le_byte(value as int, k as nat),
{
    let mut block: [u8; 16] = [0u8; 16];
    let mut rest: u128 = value;
    let mut k: usize = 0;
    proof {
        lemma_pow0(256);
    }
    while k < 16
        invariant
            k <= 16,
            rest == value as int / pow(256, k as nat),
            forall|j: int| 0 <= j < k ==> block[j] == le_byte(value as int, j as nat),
        decreases 16 - k,
    {
        block[k] = (rest % 256) as u8;
        proof {
            let p = pow(256, k as nat);
            lemma_pow_positive(256, k as nat);
            lemma_pow_adds(256, k as nat, 1);
            lemma_pow1(256);
            lemma_div_denominator(value as int, p, 256);
        }
        rest = rest / 256;
        k += 1;
    }
    block
}

/// The wire form of `values`.
pub fn as_bytes(values: &[u128]) -> (r: Vec<u8>)
    requires
        16 * values.len() <= usize::MAX,
    ensures
        r@ == le_bytes(elements(values@)),
{
    let mut out: Vec<u8> = Vec::with_capacity(16 * values.len());
    let mut i: usize = 0;
    while i < values.len()
        invariant
            i <= values.len(),
            out.len() == 16 * i,
            forall|p: int|
                0 <= p < 16 * i ==> out[p] == le_byte(
                    #[trigger] values[p / 16] as int,
                    (p % 16) as nat,
                ),
        decreases values.len() - i,
    {
        let block: [u8; 16] = element_to_bytes(values[i]);
        let mut k: usize = 0;
        while k < 16
            invariant
                i < values.len(),
                k <= 16,
                out.len() == 16 * i + k,
                forall|j: int| 0 <= j < 16 ==> block[j] == le_byte(values[i as int] as int, j as nat),
                forall|p: int|
                    0 <= p < 16 * i + k ==> out[p] == le_byte(
                        #[trigger] values[p / 16] as int,
                        (p % 16) as nat,
                    ),
            decreases 16 - k,
        {
            out.push(block[k]);
            k += 1;
        }
        i += 1;
    }
    assert(out@ =~= le_bytes(elements(values@)));
    out
}

} // verus!
