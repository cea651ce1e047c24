//! Two-stage segmented reduction: every work item folds a strided slice of
//! the input, every work group combines the values of its work items into one
//! partial result, and the host adds up the partial results.
use vstd::arithmetic::div_mod::{lemma_mod_equivalence, lemma_small_mod};
use vstd::prelude::*;

use crate::element::{lemma_wrap_add, Element};
use crate::launch::KernelParams;

verus! {

/// The sum of a sequence of integers.
pub open spec fn total(s: Seq<int>) -> int
    decreases s.len(),
{
    if s.len() == 0 {
        0
    } else {
        total(s.drop_last()) + s.last()
    }
}

/// The elements of `s` as integers.
pub open spec fn values<T: Element>(s: Seq<T>) -> Seq<int> {
    Seq::new(s.len(), |i: int| s[i].value())
}

/// The products of corresponding elements of `a` and `b`, as integers.
pub open spec fn products<T: Element>(a: Seq<T>, b: Seq<T>) -> Seq<int> {
    Seq::new(a.len(), |i: int| a[i].value() * b[i].value())
}

/// What the reduction kernel adds up: the elements of `a`, or, given a second
/// operand, the products of corresponding elements.
pub open spec fn reduction_input<T: Element>(a: Seq<T>, b: Option<Seq<T>>) -> Seq<int> {
    match b {
        Some(b) => products(a, b),
        None => values(a),
    }
}

pub open spec fn operand_view<T>(b: Option<&Vec<T>>) -> Option<Seq<T>> {
    match b {
        Some(v) => Some(v@),
        None => None,
    }
}

/// The sum of the elements of `s` among the first `n` whose index leaves
/// remainder `g` when divided by `stride`: what work item `g` folds.
pub open spec fn strided_sum(s: Seq<int>, n: nat, g: nat, stride: nat) -> int
    decreases n,
{
    if n == 0 {
        0
    } else {
        strided_sum(s, (n - 1) as nat, g, stride) + if (n - 1) as nat % stride == g {
            s[n - 1]
        } else {
            0
        }
    }
}

/// The values that work items `0 .. k` fold, added up.
pub open spec fn items_total(s: Seq<int>, n: nat, k: nat, stride: nat) -> int
    decreases k,
{
    if k == 0 {
        0
    } else {
        items_total(s, n, (k - 1) as nat, stride) + strided_sum(s, n, (k - 1) as nat, stride)
    }
}

/// What work group `w` of `size` work items contributes.
pub open spec fn group_total(s: Seq<int>, w: nat, size: nat, stride: nat) -> int {
    items_total(s, s.len(), (w + 1) * size, stride) - items_total(s, s.len(), w * size, stride)
}

proof fn lemma_strided_below(s: Seq<int>, m: nat, g: nat, stride: nat)
    requires
        m <= g,
        g < stride,
    ensures
        strided_sum(s, m, g, stride) == 0,
    decreases m,
{
    if m > 0 {
        lemma_small_mod((m - 1) as nat, stride);
        lemma_strided_below(s, (m - 1) as nat, g, stride);
    }
}

/// Past index `i` of the slice of work item `i % stride`, the next `stride`
/// elements add only `s[i]` to it.
proof fn lemma_strided_step(s: Seq<int>, i: nat, m: nat, stride: nat)
    requires
        stride > 0,
        i < m <= i + stride,
    ensures
        strided_sum(s, m, i % stride, stride) == strided_sum(s, i, i % stride, stride) + s[i as int],
    decreases m,
{
    if m > i + 1 {
        let j = (m - 1) as nat;
        lemma_strided_step(s, i, j, stride);
        lemma_mod_equivalence(j as int, i as int, stride as int);
        lemma_small_mod((j - i) as nat, stride);
    }
}

proof fn lemma_items_zero(s: Seq<int>, k: nat, stride: nat)
    ensures
        items_total(s, 0, k, stride) == 0,
    decreases k,
{
    if k > 0 {
        lemma_items_zero(s, (k - 1) as nat, stride);
    }
}

proof fn lemma_items_grow(s: Seq<int>, n: nat, k: nat, stride: nat)
    requires
        stride > 0,
    ensures
        items_total(s, n + 1, k, stride) == items_total(s, n, k, stride) + if n % stride < k {
            s[n as int]
        } else {
            0
        },
    decreases k,
{
    if k > 0 {
        lemma_items_grow(s, n, (k - 1) as nat, stride);
    }
}

/// All `stride` work items together fold every element exactly once.
pub proof fn lemma_items_cover(s: Seq<int>, n: nat, stride: nat)
    requires
        stride > 0,
        n <= s.len(),
    ensures
        items_total(s, n, stride, stride) == total(s.take(n as int)),
    decreases n,
{
    if n == 0 {
        lemma_items_zero(s, stride, stride);
    } else {
        let p = (n - 1) as nat;
        lemma_items_cover(s, p, stride);
        lemma_items_grow(s, p, stride, stride);
        assert(s.take(n as int).drop_last() =~= s.take(p as int));
    }
}

/// One work item: folds the elements at `g`, `g + stride`, `g + 2 * stride`,
/// ... that lie inside the input.
fn work_item_value<T: Element>(a: &Vec<T>, b: Option<&Vec<T>>, g: usize, stride: usize) -> (acc: T)
    requires
        0 < stride,
        g < stride,
        b matches Some(v) ==> v.len() == a.len(),
    ensures
        acc == T::wrap(
            strided_sum(reduction_input(a@, operand_view(b)), a.len() as nat, g as nat, stride as nat),
        ),
{
    let ghost s = reduction_input(a@, operand_view(b));
    let n = a.len();
    let mut acc: T = T::zero();
    let mut i: usize = g;
    proof {
        let m = if g < n { g } else { n };
        lemma_small_mod(g as nat, stride as nat);
        lemma_strided_below(s, m as nat, g as nat, stride as nat);
    }
    while i < n
        invariant
            0 < stride,
            g < stride,
            s == reduction_input(a@, operand_view(b)),
            n == a.len(),
            b matches Some(v) ==> v.len() == a.len(),
            g <= i,
            i < n ==> i % stride == g,
            acc == T::wrap(strided_sum(s, if i < n { i as nat } else { n as nat }, g as nat, stride as nat)),
        decreases n - i,
    {
        let x: T = match b {
            Some(v) => a[i].wrapping_product(v[i]),
            None => a[i],
        };
        let next: usize = if n - i > stride { i + stride } else { n };
        proof {
            if b is None {
                T::lemma_wrap_value(a[i as int]);
            }
            lemma_strided_step(s, i as nat, next as nat, stride as nat);
            lemma_wrap_add::<T>(strided_sum(s, i as nat, g as nat, stride as nat), s[i as int]);
            if next < n {
                vstd::arithmetic::div_mod::lemma_mod_add_multiples_vanish(i as int, stride as int);
            }
        }
        acc = acc.wrapping_sum(x);
        i = next;
    }
    acc
}

/// One work group: combines the values of its `size` work items, those
/// numbered from `w * size` on.
fn group_value<T: Element>(a: &Vec<T>, b: Option<&Vec<T>>, w: usize, size: usize, stride: usize) -> (r: T)
    requires
        0 < size,
        (w + 1) * size <= stride,
        b matches Some(v) ==> v.len() == a.len(),
    ensures
        r == T::wrap(group_total(reduction_input(a@, operand_view(b)), w as nat, size as nat, stride as nat)),
{
    let ghost s = reduction_input(a@, operand_view(b));
    let ghost n = a.len() as nat;
    assert((w + 1) * size == w * size + size) by (nonlinear_arith);
    let base = w * size;
    let mut l: usize = 0;
    let mut acc: T = T::zero();
    while l < size
        invariant
            0 < size,
            base + size <= stride,
            base == w * size,
            (w + 1) * size == w * size + size,
            s == reduction_input(a@, operand_view(b)),
            n == a.len(),
            s.len() == n,
            b matches Some(v) ==> v.len() == a.len(),
            l <= size,
            acc == T::wrap(items_total(s, n, (base + l) as nat, stride as nat) - items_total(
                s,
                n,
                base as nat,
                stride as nat,
            )),
        decreases size - l,
    {
        let x = work_item_value(a, b, base + l, stride);
        proof {
            lemma_wrap_add::<T>(items_total(s, n, (base + l) as nat, stride as nat) - items_total(s, n, base as nat, stride as nat),
                strided_sum(s, n, (base + l) as nat, stride as nat),
            );
        }
        acc = acc.wrapping_sum(x);
        l = l + 1;
    }
    acc
}

/// Adds up the elements of `a`, or, given `b` of the same length, the
/// products of corresponding elements, in the wrapping arithmetic of `T`: every
/// work group of the launch that `params` describes writes one partial
/// result, and the host adds the `work_group_count` partial results.
pub fn reduce<T: Element>(a: &Vec<T>, b: Option<&Vec<T>>, params: KernelParams) -> (r: T)
    requires
        params.wf(),
        b matches Some(v) ==> v.len() == a.len(),
    ensures
        r == T::wrap(total(reduction_input(a@, operand_view(b)))),
{
    let ghost s = reduction_input(a@, operand_view(b));
    let size = params.work_group_size;
    let count = params.work_group_count;
    let stride = params.global_work_size;
    let mut partials: Vec<T> = Vec::with_capacity(count);
    let mut w: usize = 0;
    while w < count
        invariant
            params.wf(),
            size == params.work_group_size,
            count == params.work_group_count,
            stride == params.global_work_size,
            s == reduction_input(a@, operand_view(b)),
            b matches Some(v) ==> v.len() == a.len(),
            w <= count,
            partials.len() == w,
            forall|k: int|
                0 <= k < w ==> partials[k] == T::wrap(group_total(s, k as nat, size as nat, stride as nat)),
        decreases count - w,
    {
        assert((w + 1) * size <= size * count) by (nonlinear_arith)
            requires
                w < count,
        ;
        let p = group_value(a, b, w, size, stride);
        partials.push(p);
        w = w + 1;
    }
    let ghost n = a.len() as nat;
    let mut acc: T = T::zero();
    let mut k: usize = 0;
    while k < count
        invariant
            params.wf(),
            size == params.work_group_size,
            count == params.work_group_count,
            stride == params.global_work_size,
            s == reduction_input(a@, operand_view(b)),
            n == a.len(),
            s.len() == n,
            partials.len() == count,
            forall|j: int|
                0 <= j < count ==> partials[j] == T::wrap(group_total(s, j as nat, size as nat, stride as nat)),
            k <= count,
            acc == T::wrap(items_total(s, n, k as nat * size as nat, stride as nat)),
        decreases count - k,
    {
        proof {
            lemma_wrap_add::<T>(items_total(s, n, k as nat * size as nat, stride as nat),
                group_total(s, k as nat, size as nat, stride as nat),
            );
        }
        acc = acc.wrapping_sum(partials[k]);
        k = k + 1;
    }
    proof {
        assert(0 < stride && count as nat * size as nat == stride) by (nonlinear_arith)
            requires
                0 < size,
                0 < count,
                stride == size * count,
        ;
        lemma_items_cover(s, n, stride as nat);
        assert(s.take(n as int) =~= s);
    }
    acc
}

/// The host stage of a reduction whose work groups ran elsewhere: the sum
/// of the partial results, wrapping.
pub fn combine_partials<T: Element>(partials: &Vec<T>) -> (r: T)
    ensures
        r == T::wrap(total(values(partials@))),
{
    let ghost s = values(partials@);
    let mut acc: T = T::zero();
    let mut k: usize = 0;
    while k < partials.len()
        invariant
            s == values(partials@),
            k <= partials.len(),
            acc == T::wrap(total(s.take(k as int))),
        decreases partials.len() - k,
    {
        proof {
            assert(s.take(k + 1).drop_last() =~= s.take(k as int));
            T::lemma_wrap_value(partials[k as int]);
            lemma_wrap_add::<T>(total(s.take(k as int)), s[k as int]);
        }
        acc = acc.wrapping_sum(partials[k]);
        k = k + 1;
    }
    assert(s.take(partials.len() as int) =~= s);
    acc
}

} // verus!
