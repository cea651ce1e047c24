//! The elementwise kernels: one work item per element, each combining its
//! element of the left operand with the matching element of the right
//! operand, or with a scalar.
use vstd::prelude::*;

use crate::element::Element;

verus! {

/// The operation an elementwise kernel applies.
#[derive(Clone, Copy, Debug, PartialEq, Eq, Structural)]
pub enum BinaryOp {
    Add,
    Sub,
    Mul,
    Div,
}

/// `op` on device values: wrapping for `+`, `-` and `*`, truncating for
/// `/`.
pub open spec fn op_value<T: Element>(op: BinaryOp, x: T, y: T) -> T {
    match op {
        BinaryOp::Add => T::wrap(x.value() + y.value()),
        BinaryOp::Sub => T::wrap(x.value() - y.value()),
        BinaryOp::Mul => T::wrap(x.value() * y.value()),
        BinaryOp::Div => T::quotient(x, y).unwrap(),
    }
}

/// Whether `op` is defined on `x` and `y`: a division needs a divisor other
/// than zero and a quotient the type can hold.
pub open spec fn op_defined<T: Element>(op: BinaryOp, x: T, y: T) -> bool {
    op != BinaryOp::Div || T::quotient(x, y) is Some
}

/// `op` applied to each pair of corresponding elements of `a` and `b`.
pub open spec fn zip_op<T: Element>(op: BinaryOp, a: Seq<T>, b: Seq<T>) -> Seq<T> {
    Seq::new(a.len(), |i: int| op_value(op, a[i], b[i]))
}

/// `op` applied to each element of `a` and the scalar `s`.
pub open spec fn scalar_op<T: Element>(op: BinaryOp, a: Seq<T>, s: T) -> Seq<T> {
    Seq::new(a.len(), |i: int| op_value(op, a[i], s))
}

/// `op` is defined on every pair of corresponding elements of `a` and `b`.
pub open spec fn all_defined<T: Element>(op: BinaryOp, a: Seq<T>, b: Seq<T>) -> bool {
    forall|i: int| 0 <= i < a.len() && i < b.len() ==> op_defined(op, a[i], #[trigger] b[i])
}

/// `op` is defined on every element of `a` with the scalar `s`.
pub open spec fn all_defined_scalar<T: Element>(op: BinaryOp, a: Seq<T>, s: T) -> bool {
    forall|i: int| 0 <= i < a.len() ==> op_defined(op, #[trigger] a[i], s)
}

/// The body of one work item.
pub fn apply<T: Element>(op: BinaryOp, x: T, y: T) -> (r: T)
    requires
        op_defined(op, x, y),
    ensures
        r == op_value(op, x, y),
{
    match op {
        BinaryOp::Add => x.wrapping_sum(y),
        BinaryOp::Sub => x.wrapping_difference(y),
        BinaryOp::Mul => x.wrapping_product(y),
        BinaryOp::Div => match x.checked_quotient(y) {
            Some(q) => q,
            None => x,
        },
    }
}

/// Launches the kernel of `op` over `a.len()` work items, writing each
/// result into a fresh destination.
pub fn zip_with<T: Element>(op: BinaryOp, a: &Vec<T>, b: &Vec<T>) -> (r: Vec<T>)
    requires
        a.len() == b.len(),
        all_defined(op, a@, b@),
    ensures
        r@ == zip_op(op, a@, b@),
{
    let mut r: Vec<T> = Vec::with_capacity(a.len());
    let mut i: usize = 0;
    while i < a.len()
        invariant
            a.len() == b.len(),
            all_defined(op, a@, b@),
            i <= a.len(),
            r.len() == i,
            forall|j: int| 0 <= j < i ==> r[j] == op_value(op, a[j], b[j]),
        decreases a.len() - i,
    {
        r.push(apply(op, a[i], b[i]));
        i = i + 1;
    }
    assert(r@ =~= zip_op(op, a@, b@));
    r
}

/// The in-place form: the destination is also the left operand.
pub fn zip_with_in_place<T: Element>(op: BinaryOp, c: &mut Vec<T>, b: &Vec<T>)
    requires
        old(c).len() == b.len(),
        all_defined(op, old(c)@, b@),
    ensures
        final(c)@ == zip_op(op, old(c)@, b@),
{
    let ghost a = c@;
    let mut i: usize = 0;
    while i < c.len()
        invariant
            a.len() == b.len(),
            c.len() == a.len(),
            all_defined(op, a, b@),
            i <= c.len(),
            forall|j: int| 0 <= j < i ==> c[j] == op_value(op, a[j], b[j]),
            forall|j: int| i <= j < c.len() ==> c[j] == a[j],
        decreases c.len() - i,
    {
        assert(c[i as int] == a[i as int] && op_defined(op, a[i as int], b[i as int]));
        let x = apply(op, c[i], b[i]);
        c.set(i, x);
        i = i + 1;
    }
    assert(c@ =~= zip_op(op, a, b@));
}

/// Launches the kernel of `op` with the scalar `s` as right operand.
pub fn with_scalar<T: Element>(op: BinaryOp, a: &Vec<T>, s: T) -> (r: Vec<T>)
    requires
        all_defined_scalar(op, a@, s),
    ensures
        r@ == scalar_op(op, a@, s),
{
    let mut r: Vec<T> = Vec::with_capacity(a.len());
    let mut i: usize = 0;
    while i < a.len()
        invariant
            all_defined_scalar(op, a@, s),
            i <= a.len(),
            r.len() == i,
            forall|j: int| 0 <= j < i ==> r[j] == op_value(op, a[j], s),
        decreases a.len() - i,
    {
        r.push(apply(op, a[i], s));
        i = i + 1;
    }
    assert(r@ =~= scalar_op(op, a@, s));
    r
}

/// The in-place form of `with_scalar`.
pub fn with_scalar_in_place<T: Element>(op: BinaryOp, c: &mut Vec<T>, s: T)
    requires
        all_defined_scalar(op, old(c)@, s),
    ensures
        final(c)@ == scalar_op(op, old(c)@, s),
{
    let ghost a = c@;
    let mut i: usize = 0;
    while i < c.len()
        invariant
            c.len() == a.len(),
            all_defined_scalar(op, a, s),
            i <= c.len(),
            forall|j: int| 0 <= j < i ==> c[j] == op_value(op, a[j], s),
            forall|j: int| i <= j < c.len() ==> c[j] == a[j],
        decreases c.len() - i,
    {
        assert(c[i as int] == a[i as int] && op_defined(op, a[i as int], s));
        let x = apply(op, c[i], s);
        c.set(i, x);
        i = i + 1;
    }
    assert(c@ =~= scalar_op(op, a, s));
}

/// The equality kernel: a one-byte flag starts at 1, and every work item
/// whose pair of elements differs clears it. Work items only ever move the
/// flag towards 0, so they need no ordering among themselves.
pub fn equal_elements<T: Element>(a: &Vec<T>, b: &Vec<T>) -> (r: bool)
    requires
        a.len() == b.len(),
    ensures
        r == (a@ == b@),
{
    let mut flag: u8 = 1;
    let mut i: usize = 0;
    while i < a.len()
        invariant
            a.len() == b.len(),
            i <= a.len(),
            flag == 0 || flag == 1,
            (flag == 1) == (forall|j: int| 0 <= j < i ==> a[j] == b[j]),
        decreases a.len() - i,
    {
        if !a[i].same(b[i]) {
            flag = 0;
        }
        i = i + 1;
    }
    if flag != 0 {
        assert(a@ =~= b@);
    }
    flag != 0
}

} // verus!
