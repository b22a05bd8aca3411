//! Square matrices over the field, held row by row in one flat run of
//! words, and their action on a state vector.

use crate::math::field::{elements, is_element, modulus};
use vstd::arithmetic::div_mod::*;
use vstd::arithmetic::mul::*;
use vstd::prelude::*;

verus! {

/// The sum of `a[k] * b[k]` over the first `n` positions, as an integer.
pub open spec fn dot(a: Seq<int>, b: Seq<int>, n: nat) -> int
    decreases n,
{
    if n == 0 {
        0
    } else {
        dot(a, b, (n - 1) as nat) + a[n - 1] * b[n - 1]
    }
}

/// Row `i` of the `w` by `w` matrix `m`.
pub open spec fn row(m: Seq<int>, w: nat, i: int) -> Seq<int> {
    Seq::new(w, |k: int| m[i * w + k])
}

/// Column `j` of the `w` by `w` matrix `m`.
pub open spec fn column(m: Seq<int>, w: nat, j: int) -> Seq<int> {
    Seq::new(w, |k: int| m[k * w + j])
}

/// The matrix `m` applied to the vector `v` in the field: lane `i` of the
/// result is the dot product of row `i` with `v`, reduced.
pub open spec fn transform(m: Seq<int>, v: Seq<int>) -> Seq<int> {
    Seq::new(v.len(), |i: int| dot(row(m, v.len(), i), v, v.len()) % modulus())
}

/// Whether the product of the `w` by `w` matrices `a` and `b` is the
/// identity matrix of the field.
pub open spec fn is_identity_product(a: Seq<int>, b: Seq<int>, w: nat) -> bool {
    forall|i: int, j: int|
        0 <= i < w && 0 <= j < w ==> #[trigger] dot(row(a, w, i), column(b, w, j), w) % modulus()
            == if i == j {
            1int
        } else {
            0int
        }
}

/// An index into a flat `w` by `w` matrix stays inside it.
pub proof fn lemma_index_in_bounds(w: int, i: int, j: int)
    requires
        0 <= i < w,
        0 <= j < w,
    ensures
        0 <= i * w + j < w * w,
{
    assert(i * w + j < w * w) by (nonlinear_arith)
        requires
            0 <= i <= w - 1,
            0 <= j < w,
    ;
    assert(0 <= i * w) by (nonlinear_arith)
        requires
            0 <= i,
            0 <= w,
    ;
}

/// The products of the rows of `b` with `v`, before reduction.
spec fn products(b: Seq<int>, v: Seq<int>) -> Seq<int> {
    Seq::new(v.len(), |j: int| dot(row(b, v.len(), j), v, v.len()))
}

/// The first `n` terms of the products of `r` with the columns of `b`.
spec fn partial_row(r: Seq<int>, b: Seq<int>, w: nat, n: nat) -> Seq<int> {
    Seq::new(w, |k: int| dot(r, column(b, w, k), n))
}

/// A dot product is linear in its first vector.
proof fn lemma_dot_linear(x: Seq<int>, y: Seq<int>, z: Seq<int>, c: int, v: Seq<int>, n: nat)
    requires
        forall|k: int| 0 <= k < n ==> z[k] == x[k] + c * y[k],
    ensures
        dot(z, v, n) == dot(x, v, n) + c * dot(y, v, n),
    decreases n,
{
    if n > 0 {
        let m = (n - 1) as nat;
        lemma_dot_linear(x, y, z, c, v, m);
        let d = dot(y, v, m);
        let yv = y[n - 1] * v[n - 1];
        assert((x[n - 1] + c * y[n - 1]) * v[n - 1] == x[n - 1] * v[n - 1] + c * yv) by {
            lemma_mul_is_distributive_add_other_way(v[n - 1], x[n - 1], c * y[n - 1]);
            lemma_mul_is_associative(c, y[n - 1], v[n - 1]);
        }
        assert(c * (d + yv) == c * d + c * yv) by {
            lemma_mul_is_distributive_add(c, d, yv);
        }
    }
}

/// A dot product with a vector of zeros is zero.
proof fn lemma_dot_zero(z: Seq<int>, v: Seq<int>, n: nat)
    requires
        forall|k: int| 0 <= k < n ==> z[k] == 0,
    ensures
        dot(z, v, n) == 0,
    decreases n,
{
    if n > 0 {
        lemma_dot_zero(z, v, (n - 1) as nat);
    }
}

/// Dot products with congruent second vectors are congruent.
proof fn lemma_dot_congruent(r: Seq<int>, x: Seq<int>, y: Seq<int>, n: nat)
    requires
        forall|k: int| 0 <= k < n ==> x[k] % modulus() == y[k] % modulus(),
    ensures
        dot(r, x, n) % modulus() == dot(r, y, n) % modulus(),
    decreases n,
{
    if n > 0 {
        let m = (n - 1) as nat;
        lemma_dot_congruent(r, x, y, m);
        lemma_mul_mod_noop_right(r[n - 1], x[n - 1], modulus());
        lemma_mul_mod_noop_right(r[n - 1], y[n - 1], modulus());
        lemma_add_mod_noop(dot(r, x, m), r[n - 1] * x[n - 1], modulus());
        lemma_add_mod_noop(dot(r, y, m), r[n - 1] * y[n - 1], modulus());
    }
}

/// The dot product with a vector that is congruent to lane `i` of the
/// identity picks element `i`.
proof fn lemma_dot_unit(e: Seq<int>, v: Seq<int>, n: nat, i: int)
    requires
        0 <= i,
        forall|k: int|
            0 <= k < n ==> #[trigger] e[k] % modulus() == if k == i {
                1int
            } else {
                0int
            },
    ensures
        dot(e, v, n) % modulus() == if i < n {
            v[i] % modulus()
        } else {
            0
        },
    decreases n,
{
    if n > 0 {
        let m = (n - 1) as nat;
        lemma_dot_unit(e, v, m, i);
        lemma_mul_mod_noop_left(e[n - 1], v[n - 1], modulus());
        lemma_add_mod_noop(dot(e, v, m), e[n - 1] * v[n - 1], modulus());
        if i < n {
            lemma_mod_twice(v[i], modulus());
        }
    }
}

/// Summing over rows first or over columns first gives the same number.
proof fn lemma_dot_exchange(r: Seq<int>, b: Seq<int>, v: Seq<int>, n: nat)
    requires
        n <= v.len(),
    ensures
        dot(r, products(b, v), n) == dot(partial_row(r, b, v.len(), n), v, v.len()),
    decreases n,
{
    let w = v.len();
    if n == 0 {
        lemma_dot_zero(partial_row(r, b, w, 0), v, w);
    } else {
        let m = (n - 1) as nat;
        lemma_dot_exchange(r, b, v, m);
        lemma_dot_linear(
            partial_row(r, b, w, m),
            row(b, w, n - 1),
            partial_row(r, b, w, n),
            r[n - 1],
            v,
            w,
        );
    }
}

/// Where the product of `a` and `b` is the identity, applying `b` and then
/// `a` gives every vector of field elements back.
pub proof fn lemma_transform_inverse(a: Seq<int>, b: Seq<int>, v: Seq<int>)
    requires
        is_identity_product(a, b, v.len()),
        forall|k: int| 0 <= k < v.len() ==> is_element(#[trigger] v[k]),
    ensures
        transform(a, transform(b, v)) == v,
{
    let w = v.len();
    let u = transform(b, v);
    assert forall|i: int| 0 <= i < w implies transform(a, u)[i] == v[i] by {
        let r = row(a, w, i);
        let c = partial_row(r, b, w, w);
        assert forall|k: int| 0 <= k < w implies u[k] % modulus() == products(b, v)[k]
            % modulus() by {
            lemma_mod_twice(products(b, v)[k], modulus());
        }
        lemma_dot_congruent(r, u, products(b, v), w);
        lemma_dot_exchange(r, b, v, w);
        assert forall|k: int| 0 <= k < w implies #[trigger] c[k] % modulus() == if k == i {
            1int
        } else {
            0int
        } by {
            assert(c[k] == dot(row(a, w, i), column(b, w, k), w));
        }
        lemma_dot_unit(c, v, w, i);
        lemma_small_mod(v[i] as nat, modulus() as nat);
    }
    assert(transform(a, u) =~= v);
}

/// Every lane of a transformed vector is a field element.
pub proof fn lemma_transform_elements(m: Seq<int>, v: Seq<int>)
    ensures
        transform(m, v).len() == v.len(),
        forall|i: int| 0 <= i < v.len() ==> is_element(#[trigger] transform(m, v)[i]),
{
    assert forall|i: int| 0 <= i < v.len() implies is_element(#[trigger] transform(m, v)[i]) by {
        lemma_mod_bound(dot(row(m, v.len(), i), v, v.len()), modulus());
    }
}

/// Replaces `state` by the product of `matrix` with it.
pub fn apply(matrix: &[u128], state: &mut [u128])
    requires
        matrix.len() == old(state).len() * old(state).len(),
    ensures
        final(state).len() == old(state).len(),
        elements(final(state)@) == transform(elements(matrix@), elements(old(state)@)),
{
    let width: usize = state.len();
    let ghost m = elements(matrix@);
    let ghost v = elements(state@);
    let mut result: Vec<u128> = Vec::with_capacity(width);
    let mut i: usize = 0;
    while i < width
        invariant
            width == state.len(),
            matrix.len() == width * width,
            m == elements(matrix@),
            v == elements(state@),
            i <= width,
            result.len() == i,
            forall|r: int| 0 <= r < i ==> result[r] as int == #[trigger] transform(m, v)[r],
        decreases width - i,
    {
        let mut acc: u128 = crate::math::field::ZERO;
        let mut j: usize = 0;
        assert(dot(row(m, width as nat, i as int), v, 0) == 0);
        while j < width
            invariant
                width == state.len(),
                matrix.len() == width * width,
                m == elements(matrix@),
                v == elements(state@),
                i < width,
                j <= width,
                acc as int == dot(row(m, width as nat, i as int), v, j as nat) % modulus(),
            decreases width - j,
        {
            proof {
                lemma_index_in_bounds(width as int, i as int, j as int);
            }
            let term: u128 = crate::math::field::mul(matrix[i * width + j], state[j]);
            let ghost before = dot(row(m, width as nat, i as int), v, j as nat);
            acc = crate::math::field::add(acc, term);
            proof {
                let x = m[i * width + j] * v[j as int];
                lemma_add_mod_noop(before, x, modulus());
            }
            j += 1;
        }
        result.push(acc);
        i += 1;
    }
    let mut k: usize = 0;
    while k < width
        invariant
            width == state.len(),
            result.len() == width,
            k <= width,
            forall|r: int| 0 <= r < k ==> state[r] == result[r],
        decreases width - k,
    {
        state[k] = result[k];
        k += 1;
    }
    assert(elements(state@) =~= transform(m, v));
}

} // verus!
