//! Algebraic facts about the operations, stated over the same mathematical
//! models their contracts use.
use vstd::arithmetic::div_mod::lemma_fundamental_div_mod_converse;
use vstd::prelude::*;
use vstd::std_specs::cmp::PartialEqSpec;

use crate::elementwise::{zip_op, BinaryOp};
use crate::layout::{
    holds_at, lemma_payload_injective, lemma_payload_len, lemma_u64_round_trip, matrix_bytes, payload, u64_bytes, u64_from, vector_bytes, ELEMENT_SIZE,
};
use crate::product::{mat_product, strided_dot};
use crate::element::Element;
use crate::reduce::{total, values};
use crate::vector::Vector;

verus! {

/// Adding `b` elementwise and then subtracting it gives back `a`, and
/// elementwise addition does not depend on the order of its operands.
pub proof fn lemma_add_sub_round_trip<T: Element>(a: Seq<T>, b: Seq<T>)
    requires
        a.len() == b.len(),
    ensures
        zip_op(BinaryOp::Sub, zip_op(BinaryOp::Add, a, b), b) == a,
        zip_op(BinaryOp::Add, a, b) == zip_op(BinaryOp::Add, b, a),
{
    let s = zip_op(BinaryOp::Add, a, b);
    assert forall|i: int| 0 <= i < a.len() implies #[trigger] zip_op(BinaryOp::Sub, s, b)[i] == a[i] by {
        let x = a[i].value();
        let y = b[i].value();
        T::lemma_wrap_congruent(x + y, -y);
        T::lemma_wrap_value(a[i]);
    }
    assert(zip_op(BinaryOp::Sub, s, b) =~= a);
    assert(zip_op(BinaryOp::Add, a, b) =~= zip_op(BinaryOp::Add, b, a));
}

/// The elements `0, 1, ..., n - 1`.
pub open spec fn range_seq(n: nat) -> Seq<u32> {
    Seq::new(n, |i: int| i as u32)
}

/// The elements `0 .. n` add up to `n * (n - 1) / 2`, the closed form the
/// reduction of such a vector is checked against.
pub proof fn lemma_range_total(n: nat)
    requires
        n <= u32::MAX + 1,
    ensures
        2 * total(values(range_seq(n))) == n * (n - 1),
    decreases n,
{
    if n > 0 {
        let m = (n - 1) as nat;
        lemma_range_total(m);
        assert(values(range_seq(n)).drop_last() =~= values(range_seq(m)));
        assert(n * (n - 1) == m * (m - 1) + 2 * m) by (nonlinear_arith)
            requires
                m == n - 1,
        ;
    }
}

/// The `n` by `n` identity matrix, row-major.
pub open spec fn identity<T: Element>(n: nat) -> Seq<T> {
    Seq::new(n * n, |i: int| if i / n as int == i % n as int { T::wrap(1) } else { T::wrap(0) })
}

proof fn lemma_identity_at<T: Element>(n: nat, r: int, c: int)
    requires
        0 <= r < n,
        0 <= c < n,
    ensures
        r * n + c < n * n,
        identity::<T>(n)[r * n + c].value() == if r == c { 1int } else { 0int },
{
    assert(r * n + c < n * n) by (nonlinear_arith)
        requires
            0 <= r < n,
            0 <= c < n,
    ;
    lemma_fundamental_div_mod_converse(r * n + c, n as int, r, c);
    T::lemma_small_values();
}

proof fn lemma_times_identity_partial<T: Element>(a: Seq<T>, n: nat, r: int, c: int, k: nat)
    requires
        0 <= r,
        (r + 1) * n <= a.len(),
        0 <= c < n,
        k <= n,
    ensures
        strided_dot(a, r * n, 1, identity(n), c, n as int, k) == if c < k { a[r * n + c].value() } else { 0 },
    decreases k,
{
    if k > 0 {
        let t = (k - 1) as int;
        lemma_times_identity_partial(a, n, r, c, (k - 1) as nat);
        assert(c + t * n == t * n + c) by (nonlinear_arith);
        lemma_identity_at::<T>(n, t, c);
        assert(r * n + t < (r + 1) * n) by (nonlinear_arith)
            requires
                t < n,
        ;
    }
}

proof fn lemma_identity_times_partial<T: Element>(a: Seq<T>, n: nat, cols: nat, r: int, c: int, k: nat)
    requires
        a.len() == n * cols,
        0 <= r < n,
        0 <= c < cols,
        k <= n,
    ensures
        strided_dot(identity(n), r * n, 1, a, c, cols as int, k) == if r < k {
            a[r * cols + c].value()
        } else {
            0
        },
    decreases k,
{
    if k > 0 {
        let t = (k - 1) as int;
        lemma_identity_times_partial(a, n, cols, r, c, (k - 1) as nat);
        lemma_identity_at::<T>(n, r, t);
        assert(r * n + t * 1 == r * n + t);
        assert(c + t * cols == t * cols + c) by (nonlinear_arith);
        assert(r * cols + c < n * cols) by (nonlinear_arith)
            requires
                0 <= r < n,
                0 <= c < cols,
        ;
        assert(t * cols + c < n * cols) by (nonlinear_arith)
            requires
                0 <= t < n,
                0 <= c < cols,
        ;
    }
}

/// Multiplying by the identity matrix, on either side, changes nothing.
pub proof fn lemma_identity_product<T: Element>(a: Seq<T>, rows: nat, n: nat)
    requires
        a.len() == rows * n,
    ensures
        mat_product(a, identity(n), rows, n, n) == a,
        mat_product(identity(rows), a, rows, rows, n) == a,
{
    assert forall|i: int| 0 <= i < a.len() implies #[trigger] mat_product(a, identity(n), rows, n, n)[i]
        == a[i] by {
        let r = i / n as int;
        let c = i % n as int;
        assert(0 <= r < rows && 0 <= c < n && (r + 1) * n <= a.len() && r * n + c == i)
            by (nonlinear_arith)
            requires
                0 <= i < rows * n,
                a.len() == rows * n,
                r == i / n as int,
                c == i % n as int,
        ;
        lemma_times_identity_partial(a, n, r, c, n);
        T::lemma_wrap_value(a[i]);
    }
    assert(mat_product(a, identity(n), rows, n, n) =~= a);
    assert forall|i: int| 0 <= i < a.len() implies #[trigger] mat_product(identity(rows), a, rows, rows, n)[i]
        == a[i] by {
        let r = i / n as int;
        let c = i % n as int;
        assert(0 <= r < rows && 0 <= c < n && r * n + c == i) by (nonlinear_arith)
            requires
                0 <= i < rows * n,
                r == i / n as int,
                c == i % n as int,
        ;
        lemma_identity_times_partial(a, rows, n, r, c, rows);
        T::lemma_wrap_value(a[i]);
    }
    assert(mat_product(identity(rows), a, rows, rows, n) =~= a);
}

/// Equality of vectors is reflexive and symmetric, and vectors of different
/// lengths, or with any differing element, are unequal.
pub proof fn lemma_equality<T: Element>(a: Vector<T>, b: Vector<T>)
    ensures
        a.eq_spec(&a),
        a.eq_spec(&b) == b.eq_spec(&a),
        a@.len() != b@.len() ==> !a.eq_spec(&b),
        forall|i: int| 0 <= i < a@.len() && i < b@.len() && a@[i] != b@[i] ==> !a.eq_spec(&b),
{
}

/// Writing a vector and reading its record back gives the same elements,
/// whatever bytes follow the record: the record carries the element size
/// this library reads, and at any one place at most one vector is stored.
pub proof fn lemma_vector_round_trip(b: Seq<u8>, at: int, s: Seq<u32>, t: Seq<u32>)
    requires
        s.len() <= u64::MAX,
        t.len() <= u64::MAX,
    ensures
        u64_from(vector_bytes(s).subrange(0, 8)) == ELEMENT_SIZE,
        holds_at(b, at, vector_bytes(s)) && holds_at(b, at, vector_bytes(t)) ==> s == t,
{
    let vs = vector_bytes(s);
    let vt = vector_bytes(t);
    assert(vs.subrange(0, 8) =~= u64_bytes(ELEMENT_SIZE));
    lemma_u64_round_trip(ELEMENT_SIZE);
    lemma_payload_len(s);
    lemma_payload_len(t);
    if holds_at(b, at, vs) && holds_at(b, at, vt) {
        assert(vs.subrange(8, 16) =~= b.subrange(at + 8, at + 16));
        assert(vt.subrange(8, 16) =~= b.subrange(at + 8, at + 16));
        assert(vs.subrange(8, 16) =~= u64_bytes(s.len() as u64));
        assert(vt.subrange(8, 16) =~= u64_bytes(t.len() as u64));
        lemma_u64_round_trip(s.len() as u64);
        lemma_u64_round_trip(t.len() as u64);
        assert(vs =~= vt);
        assert(vs.subrange(16, vs.len() as int) =~= payload(s));
        assert(vt.subrange(16, vs.len() as int) =~= payload(t));
        lemma_payload_injective(s, t);
    }
}

/// Writing a matrix and reading its record back gives the same shape and
/// elements, whatever bytes follow the record: the record carries the
/// element size this library reads, and at any one place at most one matrix
/// is stored.
pub proof fn lemma_matrix_round_trip(
    b: Seq<u8>,
    at: int,
    r1: nat,
    c1: nat,
    s: Seq<u32>,
    r2: nat,
    c2: nat,
    t: Seq<u32>,
)
    requires
        r1 <= u64::MAX,
        c1 <= u64::MAX,
        r2 <= u64::MAX,
        c2 <= u64::MAX,
        s.len() == r1 * c1,
        t.len() == r2 * c2,
    ensures
        u64_from(matrix_bytes(r1, c1, s).subrange(0, 8)) == ELEMENT_SIZE,
        holds_at(b, at, matrix_bytes(r1, c1, s)) && holds_at(b, at, matrix_bytes(r2, c2, t)) ==> r1 == r2
            && c1 == c2 && s == t,
{
    let ms = matrix_bytes(r1, c1, s);
    let mt = matrix_bytes(r2, c2, t);
    assert(ms.subrange(0, 8) =~= u64_bytes(ELEMENT_SIZE));
    lemma_u64_round_trip(ELEMENT_SIZE);
    lemma_payload_len(s);
    lemma_payload_len(t);
    if holds_at(b, at, ms) && holds_at(b, at, mt) {
        assert(ms.subrange(8, 16) =~= b.subrange(at + 8, at + 16));
        assert(mt.subrange(8, 16) =~= b.subrange(at + 8, at + 16));
        assert(ms.subrange(16, 24) =~= b.subrange(at + 16, at + 24));
        assert(mt.subrange(16, 24) =~= b.subrange(at + 16, at + 24));
        assert(ms.subrange(8, 16) =~= u64_bytes(r1 as u64));
        assert(mt.subrange(8, 16) =~= u64_bytes(r2 as u64));
        assert(ms.subrange(16, 24) =~= u64_bytes(c1 as u64));
        assert(mt.subrange(16, 24) =~= u64_bytes(c2 as u64));
        lemma_u64_round_trip(r1 as u64);
        lemma_u64_round_trip(r2 as u64);
        lemma_u64_round_trip(c1 as u64);
        lemma_u64_round_trip(c2 as u64);
        assert(ms =~= mt);
        assert(ms.subrange(24, ms.len() as int) =~= payload(s));
        assert(mt.subrange(24, ms.len() as int) =~= payload(t));
        lemma_payload_injective(s, t);
    }
}

} // verus!
